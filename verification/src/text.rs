//! Character-level text utilities shared by the whole library.
//!
//! Strings are reasoned about through their views (`Seq<char>`).  Unicode
//! classifications and case mappings come from the standard library and are
//! given names; everything built on top of them is verified here.
use vstd::prelude::*;

verus! {

broadcast use vstd::string::group_string_axioms;

// ---------------------------------------------------------------------------
// Names for Unicode behaviour of the standard library
// ---------------------------------------------------------------------------

/// Whether `c` has the Unicode `White_Space` property (`char::is_whitespace`):
/// the characters U+0009 to U+000D, U+0020, U+0085, U+00A0, U+1680, U+2000
/// to U+200A, U+2028, U+2029, U+202F, U+205F and U+3000.
pub open spec fn unicode_white_space(c: char) -> bool {
    let n = c as nat;
    ||| 0x9 <= n <= 0xd
    ||| n == 0x20
    ||| n == 0x85
    ||| n == 0xa0
    ||| n == 0x1680
    ||| 0x2000 <= n <= 0x200a
    ||| n == 0x2028
    ||| n == 0x2029
    ||| n == 0x202f
    ||| n == 0x205f
    ||| n == 0x3000
}

/// The uppercase of a text: letter by letter for ASCII text, the full
/// Unicode mapping otherwise.
pub open spec fn upper_text(s: Seq<char>) -> Seq<char> {
    if is_ascii_text(s) {
        s.map_values(|c: char| ascii_upper_char(c))
    } else {
        unicode_upper(s)
    }
}

/// Whether `c` is an ASCII character.
pub open spec fn is_ascii_char(c: char) -> bool {
    (c as nat) < 128
}

/// Whether every character of a text is ASCII.
pub open spec fn is_ascii_text(s: Seq<char>) -> bool {
    forall|i: int| 0 <= i < s.len() ==> is_ascii_char(#[trigger] s[i])
}

/// An ASCII decimal digit.
pub open spec fn ascii_digit(c: char) -> bool {
    '0' <= c && c <= '9'
}

/// An ASCII letter of either case.
pub open spec fn ascii_letter(c: char) -> bool {
    ('a' <= c && c <= 'z') || ('A' <= c && c <= 'Z')
}

/// An ASCII letter or digit.
pub open spec fn ascii_alnum(c: char) -> bool {
    ascii_letter(c) || ascii_digit(c)
}

/// ASCII uppercase of one character: `a`..`z` become `A`..`Z`, every other
/// character stays.
pub open spec fn ascii_upper_char(c: char) -> char {
    if 'a' <= c && c <= 'z' {
        ((c as nat) - 32) as char
    } else {
        c
    }
}

/// ASCII lowercase of one character: `A`..`Z` become `a`..`z`, every other
/// character stays.
pub open spec fn ascii_lower_char(c: char) -> char {
    if 'A' <= c && c <= 'Z' {
        ((c as nat) + 32) as char
    } else {
        c
    }
}

/// Whether `c` is alphabetic or numeric in Unicode (`char::is_alphanumeric`).
pub uninterp spec fn unicode_alphanumeric(c: char) -> bool;

/// Whether `c` has a Unicode numeric general category (`char::is_numeric`).
pub uninterp spec fn unicode_numeric(c: char) -> bool;

/// The full Unicode uppercase mapping of a string (`str::to_uppercase`).
pub uninterp spec fn unicode_upper(s: Seq<char>) -> Seq<char>;

/// The full Unicode lowercase mapping of a string (`str::to_lowercase`).
pub uninterp spec fn unicode_lower(s: Seq<char>) -> Seq<char>;

/// Whether the character has the Unicode `White_Space` property (what
/// `char::is_whitespace` answers), by its code point.
pub(crate) fn char_is_whitespace(c: char) -> (r: bool)
    ensures
        r == unicode_white_space(c),
{
    let n = c as u32;
    (0x9 <= n && n <= 0xd) || n == 0x20 || n == 0x85 || n == 0xa0 || n == 0x1680 || (0x2000 <= n && n
        <= 0x200a) || n == 0x2028 || n == 0x2029 || n == 0x202f || n == 0x205f || n == 0x3000
}

/// `char::is_alphanumeric`: alphabetic or numeric in the Unicode sense.
/// The classification is given a name; among ASCII characters exactly the
/// letters and digits are alphanumeric, and no white-space character is
/// (none of the `White_Space` code points is alphabetic or numeric).
#[verifier::external_body]
pub(crate) fn char_is_alphanumeric(c: char) -> (r: bool)
    ensures
        r == unicode_alphanumeric(c),
        is_ascii_char(c) ==> (r == ascii_alnum(c)),
        unicode_white_space(c) ==> !r,
{
    c.is_alphanumeric()
}

/// `char::is_numeric`: whether the character is numeric in the Unicode sense.
/// The classification is given a name; among ASCII characters exactly the
/// digits are numeric, and no white-space character is.
#[verifier::external_body]
pub(crate) fn char_is_numeric(c: char) -> (r: bool)
    ensures
        r == unicode_numeric(c),
        is_ascii_char(c) ==> (r == ascii_digit(c)),
        unicode_white_space(c) ==> !r,
{
    c.is_numeric()
}

/// `str::to_uppercase`: the Unicode uppercase mapping, which may change the
/// length of the string.  The mapping is given a name; on ASCII text it
/// uppercases the letters one by one and leaves the rest alone.
#[verifier::external_body]
pub(crate) fn str_to_uppercase(s: &str) -> (r: String)
    ensures
        r@ == unicode_upper(s@),
        is_ascii_text(s@) ==> r@ == s@.map_values(|c: char| ascii_upper_char(c)),
{
    s.to_uppercase()
}

/// `str::to_lowercase`: the Unicode lowercase mapping.  The mapping is given
/// a name; on ASCII text it lowercases the letters one by one and leaves the
/// rest alone.
#[verifier::external_body]
pub(crate) fn str_to_lowercase(s: &str) -> (r: String)
    ensures
        r@ == unicode_lower(s@),
        is_ascii_text(s@) ==> r@ == s@.map_values(|c: char| ascii_lower_char(c)),
{
    s.to_lowercase()
}

/// `String::push`: appends one character.
#[verifier::external_body]
pub(crate) fn push_char(s: &mut String, c: char)
    ensures
        final(s)@ == old(s)@.push(c),
{
    s.push(c)
}

/// View of an optional string.
pub open spec fn opt_view(o: Option<String>) -> Option<Seq<char>> {
    match o {
        Some(s) => Some(s@),
        None => None,
    }
}

/// View of an optional string slice.
pub open spec fn opt_str_view(o: Option<&str>) -> Option<Seq<char>> {
    match o {
        Some(s) => Some(s@),
        None => None,
    }
}

/// A copy of an optional string.
pub fn clone_opt(o: &Option<String>) -> (r: Option<String>)
    ensures
        opt_view(r) == opt_view(*o),
{
    match o {
        Some(s) => Some(s.clone()),
        None => None,
    }
}

/// An optional string slice as an optional owned string.
pub fn own_opt(o: Option<&str>) -> (r: Option<String>)
    ensures
        opt_view(r) == opt_str_view(o),
{
    match o {
        Some(s) => Some(own(s)),
        None => None,
    }
}

// ---------------------------------------------------------------------------
// Sequence predicates
// ---------------------------------------------------------------------------

/// `p` is a prefix of `s`.
pub open spec fn starts_with(s: Seq<char>, p: Seq<char>) -> bool {
    p.len() <= s.len() && s.subrange(0, p.len() as int) == p
}

/// `p` is a suffix of `s`.
pub open spec fn ends_with(s: Seq<char>, p: Seq<char>) -> bool {
    p.len() <= s.len() && s.subrange(s.len() - p.len(), s.len() as int) == p
}

/// `p` occurs in `s` at position `i`.
pub open spec fn occurs_at(s: Seq<char>, p: Seq<char>, i: int) -> bool {
    0 <= i && i + p.len() <= s.len() && s.subrange(i, i + p.len()) == p
}

/// `p` occurs somewhere in `s`.
pub open spec fn contains(s: Seq<char>, p: Seq<char>) -> bool {
    exists|i: int| occurs_at(s, p, i)
}

/// `s` with leading white space removed.
pub open spec fn trim_start(s: Seq<char>) -> Seq<char>
    decreases s.len(),
{
    if s.len() > 0 && unicode_white_space(s[0]) {
        trim_start(s.drop_first())
    } else {
        s
    }
}

/// `s` with trailing white space removed.
pub open spec fn trim_end(s: Seq<char>) -> Seq<char>
    decreases s.len(),
{
    if s.len() > 0 && unicode_white_space(s.last()) {
        trim_end(s.drop_last())
    } else {
        s
    }
}

/// `s` with white space removed at both ends (`str::trim`).
pub open spec fn trim(s: Seq<char>) -> Seq<char> {
    trim_end(trim_start(s))
}

/// `s` with every trailing `c` removed (`str::trim_end_matches(c)`).
pub open spec fn trim_end_char(s: Seq<char>, c: char) -> Seq<char>
    decreases s.len(),
{
    if s.len() > 0 && s.last() == c {
        trim_end_char(s.drop_last(), c)
    } else {
        s
    }
}

// ---------------------------------------------------------------------------
// Conversions between strings and character vectors
// ---------------------------------------------------------------------------

/// The characters of a string, in order.
pub fn to_chars(s: &str) -> (r: Vec<char>)
    ensures
        r@ == s@,
{
    let mut v: Vec<char> = Vec::new();
    for c in it: s.chars()
        invariant
            it.seq() == s@,
            v@ == it.seq().take(it.index() as int),
    {
        v.push(c);
    }
    v
}

/// A string made of the given characters.
pub fn from_chars(v: &Vec<char>) -> (r: String)
    ensures
        r@ == v@,
{
    let mut s = String::new();
    let mut i: usize = 0;
    while i < v.len()
        invariant
            i <= v.len(),
            s@ == v@.take(i as int),
        decreases v.len() - i,
    {
        push_char(&mut s, v[i]);
        assert(v@.take(i as int).push(v@[i as int]) =~= v@.take(i + 1));
        i = i + 1;
    }
    assert(v@.take(v.len() as int) =~= v@);
    s
}

/// A copy of a string slice as an owned string.
pub fn own(s: &str) -> (r: String)
    ensures
        r@ == s@,
{
    s.to_owned()
}

/// `a` followed by `b`.
pub fn concat(a: &str, b: &str) -> (r: String)
    ensures
        r@ == a@ + b@,
{
    let mut s = own(a);
    s.append(b);
    s
}

/// Character-wise equality of two strings.
pub fn text_eq(a: &str, b: &str) -> (r: bool)
    ensures
        r == (a@ == b@),
{
    let x = to_chars(a);
    let y = to_chars(b);
    chars_eq(&x, &y)
}

/// Element-wise equality of two character vectors.
pub fn chars_eq(a: &Vec<char>, b: &Vec<char>) -> (r: bool)
    ensures
        r == (a@ == b@),
{
    if a.len() != b.len() {
        return false;
    }
    let mut i: usize = 0;
    while i < a.len()
        invariant
            a.len() == b.len(),
            i <= a.len(),
            forall|j: int| 0 <= j < i ==> a@[j] == b@[j],
        decreases a.len() - i,
    {
        if a[i] != b[i] {
            return false;
        }
        i = i + 1;
    }
    assert(a@ =~= b@);
    true
}

/// Whether `p` occurs in `s` at position `i`.
pub fn occurs_at_exec(s: &Vec<char>, p: &Vec<char>, i: usize) -> (r: bool)
    ensures
        r == occurs_at(s@, p@, i as int),
{
    if i > s.len() || p.len() > s.len() - i {
        return false;
    }
    let mut k: usize = 0;
    while k < p.len()
        invariant
            i + p.len() <= s.len(),
            k <= p.len(),
            forall|j: int| 0 <= j < k ==> s@[i + j] == p@[j],
        decreases p.len() - k,
    {
        if s[i + k] != p[k] {
            assert(s@.subrange(i as int, i + p.len())[k as int] != p@[k as int]);
            return false;
        }
        k = k + 1;
    }
    assert(s@.subrange(i as int, i + p.len()) =~= p@);
    true
}

/// Whether `p` is a prefix of `s`.
pub fn starts_with_exec(s: &Vec<char>, p: &Vec<char>) -> (r: bool)
    ensures
        r == starts_with(s@, p@),
{
    occurs_at_exec(s, p, 0)
}

/// Whether `p` is a suffix of `s`.
pub fn ends_with_exec(s: &Vec<char>, p: &Vec<char>) -> (r: bool)
    ensures
        r == ends_with(s@, p@),
{
    if p.len() > s.len() {
        return false;
    }
    occurs_at_exec(s, p, s.len() - p.len())
}

/// Whether `p` occurs anywhere in `s`.
pub fn contains_exec(s: &Vec<char>, p: &Vec<char>) -> (r: bool)
    ensures
        r == contains(s@, p@),
{
    if p.len() > s.len() {
        assert forall|i: int| !occurs_at(s@, p@, i) by {}
        return false;
    }
    if p.len() == 0 {
        assert(s@.subrange(0, 0) =~= p@);
        assert(occurs_at(s@, p@, 0));
        return true;
    }
    let last: usize = s.len() - p.len();
    let mut i: usize = 0;
    while i <= last
        invariant
            last == s.len() - p.len(),
            0 < p.len() <= s.len(),
            i <= last + 1,
            forall|j: int| 0 <= j < i ==> !occurs_at(s@, p@, j),
        decreases last + 1 - i,
    {
        if occurs_at_exec(s, p, i) {
            return true;
        }
        i = i + 1;
    }
    assert forall|j: int| !occurs_at(s@, p@, j) by {
        if 0 <= j && j < i {
        }
    }
    false
}

/// Whether the string `p` occurs in the string `s`.
pub fn str_contains(s: &str, p: &str) -> (r: bool)
    ensures
        r == contains(s@, p@),
{
    contains_exec(&to_chars(s), &to_chars(p))
}

/// Whether the string `s` starts with `p`.
pub fn str_starts_with(s: &str, p: &str) -> (r: bool)
    ensures
        r == starts_with(s@, p@),
{
    starts_with_exec(&to_chars(s), &to_chars(p))
}

// ---------------------------------------------------------------------------
// Trimming
// ---------------------------------------------------------------------------

proof fn lemma_trim_start_skip(s: Seq<char>, i: int)
    requires
        0 <= i <= s.len(),
        forall|j: int| 0 <= j < i ==> unicode_white_space(#[trigger] s[j]),
    ensures
        trim_start(s) == trim_start(s.subrange(i, s.len() as int)),
    decreases i,
{
    if i > 0 {
        assert(s.drop_first() =~= s.subrange(1, s.len() as int));
        lemma_trim_start_skip(s.drop_first(), i - 1);
        assert(s.drop_first().subrange(i - 1, s.drop_first().len() as int) =~= s.subrange(
            i,
            s.len() as int,
        ));
    } else {
        assert(s.subrange(0, s.len() as int) =~= s);
    }
}

proof fn lemma_trim_end_skip(s: Seq<char>, k: int)
    requires
        0 <= k <= s.len(),
        forall|j: int| k <= j < s.len() ==> unicode_white_space(#[trigger] s[j]),
    ensures
        trim_end(s) == trim_end(s.subrange(0, k)),
    decreases s.len() - k,
{
    if k < s.len() {
        assert(s.drop_last() =~= s.subrange(0, s.len() - 1));
        lemma_trim_end_skip(s.drop_last(), k);
        assert(s.drop_last().subrange(0, k) =~= s.subrange(0, k));
    } else {
        assert(s.subrange(0, k) =~= s);
    }
}

proof fn lemma_trim_start_map(s: Seq<char>, f: spec_fn(char) -> char)
    requires
        forall|i: int| 0 <= i < s.len() ==> unicode_white_space(f(#[trigger] s[i])) == unicode_white_space(s[i]),
    ensures
        trim_start(s.map_values(f)) == trim_start(s).map_values(f),
    decreases s.len(),
{
    if s.len() > 0 {
        assert(s.map_values(f)[0] == f(s[0]));
        if unicode_white_space(s[0]) {
            assert(s.map_values(f).drop_first() =~= s.drop_first().map_values(f));
            assert forall|i: int| 0 <= i < s.drop_first().len() implies unicode_white_space(
                f(#[trigger] s.drop_first()[i]),
            ) == unicode_white_space(s.drop_first()[i]) by {
                assert(s.drop_first()[i] == s[i + 1]);
            }
            lemma_trim_start_map(s.drop_first(), f);
        }
    }
}

proof fn lemma_trim_end_map(s: Seq<char>, f: spec_fn(char) -> char)
    requires
        forall|i: int| 0 <= i < s.len() ==> unicode_white_space(f(#[trigger] s[i])) == unicode_white_space(s[i]),
    ensures
        trim_end(s.map_values(f)) == trim_end(s).map_values(f),
    decreases s.len(),
{
    if s.len() > 0 {
        assert(s.map_values(f).last() == f(s.last()));
        if unicode_white_space(s.last()) {
            assert(s.map_values(f).drop_last() =~= s.drop_last().map_values(f));
            assert forall|i: int| 0 <= i < s.drop_last().len() implies unicode_white_space(
                f(#[trigger] s.drop_last()[i]),
            ) == unicode_white_space(s.drop_last()[i]) by {
                assert(s.drop_last()[i] == s[i]);
            }
            lemma_trim_end_map(s.drop_last(), f);
        }
    }
}

proof fn lemma_trim_start_suffix(s: Seq<char>)
    ensures
        exists|k: int| 0 <= k <= s.len() && trim_start(s) == s.subrange(k, s.len() as int),
    decreases s.len(),
{
    if s.len() > 0 && unicode_white_space(s[0]) {
        lemma_trim_start_suffix(s.drop_first());
        let k = choose|k: int| 0 <= k <= s.drop_first().len() && trim_start(s.drop_first()) == s.drop_first().subrange(k, s.drop_first().len() as int);
        assert(s.drop_first().subrange(k, s.drop_first().len() as int) =~= s.subrange(k + 1, s.len() as int));
    } else {
        assert(s.subrange(0, s.len() as int) =~= s);
    }
}

proof fn lemma_trim_end_prefix(s: Seq<char>)
    ensures
        exists|k: int| 0 <= k <= s.len() && trim_end(s) == s.subrange(0, k),
    decreases s.len(),
{
    if s.len() > 0 && unicode_white_space(s.last()) {
        lemma_trim_end_prefix(s.drop_last());
        let k = choose|k: int| 0 <= k <= s.drop_last().len() && trim_end(s.drop_last()) == s.drop_last().subrange(0, k);
        assert(s.drop_last().subrange(0, k) =~= s.subrange(0, k));
    } else {
        assert(s.subrange(0, s.len() as int) =~= s);
    }
}

/// Trimming a text applies to a character-wise mapping that keeps white
/// space and other characters apart.
pub proof fn lemma_trim_map(s: Seq<char>, f: spec_fn(char) -> char)
    requires
        forall|c: char| unicode_white_space(#[trigger] f(c)) == unicode_white_space(c),
    ensures
        trim(s.map_values(f)) == trim(s).map_values(f),
{
    lemma_trim_start_map(s, f);
    let t = trim_start(s);
    lemma_trim_end_map(t, f);
}

/// Trimming ASCII text gives ASCII text.
pub proof fn lemma_trim_ascii(s: Seq<char>)
    requires
        is_ascii_text(s),
    ensures
        is_ascii_text(trim(s)),
{
    lemma_trim_start_suffix(s);
    let k = choose|k: int| 0 <= k <= s.len() && trim_start(s) == s.subrange(k, s.len() as int);
    let t = trim_start(s);
    assert forall|i: int| 0 <= i < t.len() implies is_ascii_char(#[trigger] t[i]) by {
        assert(t[i] == s[i + k]);
    }
    lemma_trim_end_prefix(t);
    let j = choose|j: int| 0 <= j <= t.len() && trim_end(t) == t.subrange(0, j);
    assert forall|i: int| 0 <= i < trim(s).len() implies is_ascii_char(#[trigger] trim(s)[i]) by {
        assert(trim(s)[i] == t[i]);
    }
}

proof fn lemma_trim_start_append(x: Seq<char>, post: Seq<char>)
    ensures
        trim_start(x + post) == if trim_start(x).len() > 0 {
            trim_start(x) + post
        } else {
            trim_start(post)
        },
    decreases x.len(),
{
    if x.len() == 0 {
        assert(x + post =~= post);
    } else {
        assert((x + post)[0] == x[0]);
        if unicode_white_space(x[0]) {
            assert((x + post).drop_first() =~= x.drop_first() + post);
            lemma_trim_start_append(x.drop_first(), post);
        }
    }
}

/// White space around a text does not change the trimmed text.
pub proof fn lemma_trim_surrounding(q: Seq<char>, pre: Seq<char>, post: Seq<char>)
    requires
        forall|i: int| 0 <= i < pre.len() ==> unicode_white_space(#[trigger] pre[i]),
        forall|i: int| 0 <= i < post.len() ==> unicode_white_space(#[trigger] post[i]),
    ensures
        trim(pre + q + post) == trim(q),
{
    let s = pre + q + post;
    assert forall|j: int| 0 <= j < pre.len() implies unicode_white_space(#[trigger] s[j]) by {
        assert(s[j] == pre[j]);
    }
    lemma_trim_start_skip(s, pre.len() as int);
    assert(s.subrange(pre.len() as int, s.len() as int) =~= q + post);
    lemma_trim_start_append(q, post);
    lemma_trim_start_skip(post, post.len() as int);
    assert(post.subrange(post.len() as int, post.len() as int) =~= Seq::<char>::empty());
    let y = trim_start(q);
    if y.len() > 0 {
        let z = y + post;
        assert forall|j: int| y.len() <= j < z.len() implies unicode_white_space(#[trigger] z[j]) by {
            assert(z[j] == post[j - y.len()]);
        }
        lemma_trim_end_skip(z, y.len() as int);
        assert(z.subrange(0, y.len() as int) =~= y);
    } else {
        assert(trim_start(Seq::<char>::empty()) == Seq::<char>::empty());
        assert(trim_end(Seq::<char>::empty()) == Seq::<char>::empty());
        assert(trim_end(y) == y);
    }
}

/// Leading white space removed before a character other than white space
/// leaves a suffix that starts no later than it.
pub proof fn lemma_trim_start_keeps(x: Seq<char>, j: int)
    requires
        0 <= j < x.len(),
        !unicode_white_space(x[j]),
    ensures
        exists|k: int| 0 <= k <= j && trim_start(x) == x.subrange(k, x.len() as int),
    decreases x.len(),
{
    if unicode_white_space(x[0]) {
        assert(x.drop_first()[j - 1] == x[j]);
        lemma_trim_start_keeps(x.drop_first(), j - 1);
        let k = choose|k: int| 0 <= k <= j - 1 && trim_start(x.drop_first()) == x.drop_first().subrange(k, x.drop_first().len() as int);
        assert(x.drop_first().subrange(k, x.drop_first().len() as int) =~= x.subrange(k + 1, x.len() as int));
    } else {
        assert(x.subrange(0, x.len() as int) =~= x);
    }
}

proof fn lemma_trim_end_keeps(y: Seq<char>, m: int)
    requires
        0 <= m < y.len(),
        !unicode_white_space(y[m]),
    ensures
        trim_end(y).len() > m,
    decreases y.len(),
{
    if unicode_white_space(y.last()) {
        assert(y.drop_last()[m] == y[m]);
        lemma_trim_end_keeps(y.drop_last(), m);
    }
}

/// A text holding a character other than white space keeps something when
/// trimmed.
pub proof fn lemma_trim_nonempty(x: Seq<char>, j: int)
    requires
        0 <= j < x.len(),
        !unicode_white_space(x[j]),
    ensures
        trim(x).len() > 0,
{
    lemma_trim_start_keeps(x, j);
    let k = choose|k: int| 0 <= k <= j && trim_start(x) == x.subrange(k, x.len() as int);
    assert(trim_start(x)[j - k] == x[j]);
    lemma_trim_end_keeps(trim_start(x), j - k);
}

proof fn lemma_trim_start_head(x: Seq<char>)
    ensures
        trim_start(x).len() > 0 ==> !unicode_white_space(trim_start(x)[0]),
    decreases x.len(),
{
    if x.len() > 0 && unicode_white_space(x[0]) {
        lemma_trim_start_head(x.drop_first());
    }
}

/// A text that keeps something when trimmed holds a character other than
/// white space.
pub proof fn lemma_trim_nonempty_witness(x: Seq<char>)
    requires
        trim(x).len() > 0,
    ensures
        exists|j: int| 0 <= j < x.len() && !unicode_white_space(#[trigger] x[j]),
{
    lemma_trim_start_suffix(x);
    let k = choose|k: int| 0 <= k <= x.len() && trim_start(x) == x.subrange(k, x.len() as int);
    let ts = trim_start(x);
    lemma_trim_end_prefix(ts);
    let m = choose|m: int| 0 <= m <= ts.len() && trim_end(ts) == ts.subrange(0, m);
    lemma_trim_start_head(x);
    assert(ts[0] == x[k]);
}

proof fn lemma_trim_end_last(y: Seq<char>)
    ensures
        trim_end(y).len() > 0 ==> !unicode_white_space(trim_end(y).last()),
    decreases y.len(),
{
    if y.len() > 0 && unicode_white_space(y.last()) {
        lemma_trim_end_last(y.drop_last());
    }
}

/// A text that keeps something when trimmed is a stretch of the original
/// that starts and ends with characters other than white space.
pub proof fn lemma_trim_bounds(x: Seq<char>)
    requires
        trim(x).len() > 0,
    ensures
        exists|p: int|
            0 <= p && p + trim(x).len() <= x.len() && trim(x) == x.subrange(p, p + trim(x).len())
                && !unicode_white_space(#[trigger] x[p]) && !unicode_white_space(x[p + trim(x).len() - 1]),
{
    lemma_trim_start_suffix(x);
    let k = choose|k: int| 0 <= k <= x.len() && trim_start(x) == x.subrange(k, x.len() as int);
    let ts = trim_start(x);
    lemma_trim_end_prefix(ts);
    let m = choose|m: int| 0 <= m <= ts.len() && trim_end(ts) == ts.subrange(0, m);
    lemma_trim_start_head(x);
    lemma_trim_end_last(ts);
    assert(trim(x) =~= x.subrange(k, k + m));
    assert(ts[0] == x[k]);
    assert(trim(x).last() == x[k + m - 1]);
}

/// A character between two characters other than white space stays when
/// the text is trimmed.
pub proof fn lemma_trim_keeps_between(s: Seq<char>, a: int, k: int, b: int)
    requires
        0 <= a <= k <= b < s.len(),
        !unicode_white_space(s[a]),
        !unicode_white_space(s[b]),
    ensures
        exists|j: int| 0 <= j < trim(s).len() && #[trigger] trim(s)[j] == s[k],
{
    lemma_trim_start_keeps(s, a);
    let k0 = choose|k0: int| 0 <= k0 <= a && trim_start(s) == s.subrange(k0, s.len() as int);
    let ts = trim_start(s);
    assert(ts[b - k0] == s[b]);
    lemma_trim_end_keeps(ts, b - k0);
    lemma_trim_end_prefix(ts);
    let m = choose|m: int| 0 <= m <= ts.len() && trim_end(ts) == ts.subrange(0, m);
    assert(trim(s)[k - k0] == s[k]);
}

/// Trailing white space removed after a character other than white space
/// leaves a prefix that reaches it.
pub proof fn lemma_trim_end_long(y: Seq<char>, m: int)
    requires
        0 <= m < y.len(),
        !unicode_white_space(y[m]),
    ensures
        exists|k: int| m < k <= y.len() && trim_end(y) == y.subrange(0, k),
{
    lemma_trim_end_keeps(y, m);
    lemma_trim_end_prefix(y);
}

/// Removing trailing copies of `c` keeps every position up to the last
/// character other than `c`.
pub proof fn lemma_trim_end_char_keeps(u: Seq<char>, c: char, j: int)
    requires
        0 <= j < u.len(),
        u[j] != c,
    ensures
        trim_end_char(u, c).len() > j,
    decreases u.len(),
{
    if u.last() == c {
        assert(u.drop_last()[j] == u[j]);
        lemma_trim_end_char_keeps(u.drop_last(), c, j);
    }
}

/// `s` with leading and trailing Unicode white space removed (`str::trim`).
pub fn trim_chars(s: &Vec<char>) -> (r: Vec<char>)
    ensures
        r@ == trim(s@),
{
    let mut i: usize = 0;
    while i < s.len() && char_is_whitespace(s[i])
        invariant
            i <= s.len(),
            forall|j: int| 0 <= j < i ==> unicode_white_space(#[trigger] s@[j]),
        decreases s.len() - i,
    {
        i = i + 1;
    }
    proof {
        lemma_trim_start_skip(s@, i as int);
    }
    let ghost rest = s@.subrange(i as int, s.len() as int);
    assert(rest.len() == 0 || !unicode_white_space(rest[0]));
    assert(trim_start(rest) == rest);
    let mut k: usize = s.len();
    while k > i && char_is_whitespace(s[k - 1])
        invariant
            i <= k <= s.len(),
            rest == s@.subrange(i as int, s.len() as int),
            forall|j: int| k <= j < s.len() ==> unicode_white_space(#[trigger] s@[j]),
        decreases k,
    {
        k = k - 1;
    }
    proof {
        assert forall|j: int| (k - i) <= j < rest.len() implies unicode_white_space(
            #[trigger] rest[j],
        ) by {
            assert(rest[j] == s@[j + i]);
        }
        lemma_trim_end_skip(rest, k - i);
        assert(rest.subrange(0, k - i) =~= s@.subrange(i as int, k as int));
        let t = s@.subrange(i as int, k as int);
        if t.len() > 0 {
            assert(t.last() == s@[k - 1]);
        }
    }
    let mut out: Vec<char> = Vec::new();
    let mut p: usize = i;
    while p < k
        invariant
            i <= p <= k <= s.len(),
            out@ == s@.subrange(i as int, p as int),
        decreases k - p,
    {
        out.push(s[p]);
        assert(s@.subrange(i as int, p as int).push(s@[p as int]) =~= s@.subrange(
            i as int,
            p + 1,
        ));
        p = p + 1;
    }
    out
}

/// `s` with leading and trailing Unicode white space removed (`str::trim`).
pub fn str_trim(s: &str) -> (r: String)
    ensures
        r@ == trim(s@),
{
    from_chars(&trim_chars(&to_chars(s)))
}

/// `s` with every trailing occurrence of `c` removed
/// (`str::trim_end_matches(c)`).
pub fn trim_end_char_chars(s: &Vec<char>, c: char) -> (r: Vec<char>)
    ensures
        r@ == trim_end_char(s@, c),
{
    let mut k: usize = s.len();
    assert(s@.subrange(0, k as int) =~= s@);
    while k > 0 && s[k - 1] == c
        invariant
            k <= s.len(),
            trim_end_char(s@, c) == trim_end_char(s@.subrange(0, k as int), c),
        decreases k,
    {
        assert(s@.subrange(0, k as int).drop_last() =~= s@.subrange(0, k - 1));
        k = k - 1;
    }
    let mut out: Vec<char> = Vec::new();
    let mut p: usize = 0;
    while p < k
        invariant
            p <= k <= s.len(),
            out@ == s@.subrange(0, p as int),
        decreases k - p,
    {
        out.push(s[p]);
        assert(s@.subrange(0, p as int).push(s@[p as int]) =~= s@.subrange(0, p + 1));
        p = p + 1;
    }
    proof {
        assert(s@.subrange(0, s.len() as int) =~= s@);
    }
    out
}

// ---------------------------------------------------------------------------
// Numbers as text
// ---------------------------------------------------------------------------

/// The ASCII digit (or lowercase hexadecimal letter) for `d < 16`.
pub open spec fn digit_char(d: nat) -> char {
    if d < 10 {
        (48 + d) as char
    } else {
        (87 + d) as char
    }
}

/// Decimal representation of `n` without leading zeros.
pub open spec fn decimal(n: nat) -> Seq<char>
    decreases n,
{
    if n < 10 {
        seq![digit_char(n)]
    } else {
        decimal(n / 10).push(digit_char(n % 10))
    }
}

/// Lowercase hexadecimal representation of `n` without leading zeros.
pub open spec fn hex_lower(n: nat) -> Seq<char>
    decreases n,
{
    if n < 16 {
        seq![digit_char(n)]
    } else {
        hex_lower(n / 16).push(digit_char(n % 16))
    }
}

/// The number a text of lowercase hexadecimal digits stands for.
pub open spec fn hex_value(s: Seq<char>) -> nat
    decreases s.len(),
{
    if s.len() == 0 {
        0
    } else {
        hex_value(s.drop_last()) * 16 + hex_digit_value(s.last())
    }
}

/// The value of one lowercase hexadecimal digit.
pub open spec fn hex_digit_value(c: char) -> nat {
    if '0' <= c && c <= '9' {
        (c as int - 48) as nat
    } else {
        (c as int - 87) as nat
    }
}

/// Reading the hexadecimal text of a number gives the number back.
pub proof fn lemma_hex_lower_value(n: nat)
    ensures
        hex_value(hex_lower(n)) == n,
    decreases n,
{
    let d = n % 16;
    assert(hex_digit_value(digit_char(d)) == d);
    let h = hex_lower(n);
    if n >= 16 {
        lemma_hex_lower_value(n / 16);
        assert(h.drop_last() =~= hex_lower(n / 16));
        assert(h.last() == digit_char(d));
        assert((n / 16) * 16 + n % 16 == n) by (nonlinear_arith);
        assert(hex_value(h) == hex_value(h.drop_last()) * 16 + hex_digit_value(h.last()));
        assert(hex_value(h.drop_last()) == n / 16);
        assert(hex_digit_value(h.last()) == d);
    } else {
        assert(h.drop_last() =~= Seq::<char>::empty());
        assert(h.last() == digit_char(n));
        assert(hex_value(h) == hex_value(h.drop_last()) * 16 + hex_digit_value(h.last()));
        assert(hex_value(h.drop_last()) == 0);
    }
}

/// The character for a digit below 16.
pub fn digit_to_char(d: u64) -> (c: char)
    requires
        d < 16,
    ensures
        c == digit_char(d as nat),
{
    let b: u8 = if d < 10 {
        48 + (d as u8)
    } else {
        87 + (d as u8)
    };
    b as char
}

/// Decimal text of an unsigned integer, as `format!("{}", n)`.
pub fn u64_to_decimal(n: u64) -> (r: String)
    ensures
        r@ == decimal(n as nat),
{
    let mut m: u64 = n;
    let mut acc: Vec<char> = Vec::new();
    while m >= 10
        invariant
            decimal(n as nat) == decimal(m as nat) + acc@,
        decreases m,
    {
        let c = digit_to_char(m % 10);
        let ghost old_acc = acc@;
        acc.insert(0, c);
        proof {
            assert(decimal(m as nat) == decimal((m / 10) as nat).push(digit_char((m % 10) as nat)));
            assert(decimal((m / 10) as nat).push(c) + old_acc =~= decimal((m / 10) as nat)
                + acc@);
        }
        m = m / 10;
    }
    acc.insert(0, digit_to_char(m));
    from_chars(&acc)
}

/// Decimal text of a signed integer, as `format!("{}", n)`.
pub fn i64_to_decimal(n: i64) -> (r: String)
    ensures
        n >= 0 ==> r@ == decimal(n as nat),
        n < 0 ==> r@ == seq!['-'] + decimal((-n) as nat),
{
    if n >= 0 {
        u64_to_decimal(n as u64)
    } else {
        let m: u64 = if n == i64::MIN {
            9223372036854775808u64
        } else {
            (-n) as u64
        };
        let d = u64_to_decimal(m);
        let mut s = String::new();
        push_char(&mut s, '-');
        s.append(d.as_str());
        s
    }
}

/// Lowercase hexadecimal text, as `format!("{:x}", n)`.
pub fn u64_to_hex(n: u64) -> (r: String)
    ensures
        r@ == hex_lower(n as nat),
{
    let mut m: u64 = n;
    let mut acc: Vec<char> = Vec::new();
    while m >= 16
        invariant
            hex_lower(n as nat) == hex_lower(m as nat) + acc@,
        decreases m,
    {
        let c = digit_to_char(m % 16);
        let ghost old_acc = acc@;
        acc.insert(0, c);
        proof {
            assert(hex_lower(m as nat) == hex_lower((m / 16) as nat).push(
                digit_char((m % 16) as nat),
            ));
            assert(hex_lower((m / 16) as nat).push(c) + old_acc =~= hex_lower((m / 16) as nat)
                + acc@);
        }
        m = m / 16;
    }
    acc.insert(0, digit_to_char(m));
    from_chars(&acc)
}

/// Two lowercase hexadecimal digits per byte, most significant first.
pub open spec fn hex_bytes(b: Seq<u8>) -> Seq<char>
    decreases b.len(),
{
    if b.len() == 0 {
        Seq::empty()
    } else {
        hex_bytes(b.drop_last()) + seq![
            digit_char((b.last() / 16) as nat),
            digit_char((b.last() % 16) as nat),
        ]
    }
}

/// Lowercase hexadecimal text of a byte string, two digits per byte.
pub fn bytes_to_hex(b: &Vec<u8>) -> (r: String)
    ensures
        r@ == hex_bytes(b@),
{
    let mut s = String::new();
    let mut i: usize = 0;
    while i < b.len()
        invariant
            i <= b.len(),
            s@ == hex_bytes(b@.take(i as int)),
        decreases b.len() - i,
    {
        let x = b[i];
        let ghost before = s@;
        push_char(&mut s, digit_to_char((x / 16) as u64));
        push_char(&mut s, digit_to_char((x % 16) as u64));
        proof {
            let t = b@.take(i + 1);
            assert(t.drop_last() =~= b@.take(i as int));
            assert(t.last() == x);
            assert(s@ =~= hex_bytes(t));
        }
        i = i + 1;
    }
    assert(b@.take(b.len() as int) =~= b@);
    s
}

// ---------------------------------------------------------------------------
// Parsing unsigned integers
// ---------------------------------------------------------------------------

/// Whether `c` is an ASCII decimal digit.
pub open spec fn is_ascii_digit(c: char) -> bool {
    '0' <= c && c <= '9'
}

/// The value of a string of ASCII decimal digits.
pub open spec fn digits_value(s: Seq<char>) -> nat
    decreases s.len(),
{
    if s.len() == 0 {
        0
    } else {
        digits_value(s.drop_last()) * 10 + ((s.last() as nat) - 48) as nat
    }
}

/// The digits part of an unsigned integer literal: an optional `+` is
/// skipped.
pub open spec fn unsigned_digits(s: Seq<char>) -> Seq<char> {
    if s.len() > 0 && s[0] == '+' {
        s.drop_first()
    } else {
        s
    }
}

/// Whether `s` is accepted as a decimal `u32` by `str::parse::<u32>`: an
/// optional `+` followed by at least one ASCII digit, with a value that fits.
pub open spec fn parses_as_u32(s: Seq<char>) -> bool {
    let d = unsigned_digits(s);
    &&& d.len() > 0
    &&& forall|i: int| 0 <= i < d.len() ==> is_ascii_digit(#[trigger] d[i])
    &&& digits_value(d) <= u32::MAX
}

proof fn lemma_digits_value_monotone(s: Seq<char>, i: int)
    requires
        0 <= i <= s.len(),
        forall|j: int| 0 <= j < s.len() ==> is_ascii_digit(#[trigger] s[j]),
    ensures
        digits_value(s.take(i)) <= digits_value(s),
    decreases s.len() - i,
{
    if i < s.len() {
        lemma_digits_value_monotone(s, i + 1);
        let t = s.take(i + 1);
        assert(t.drop_last() =~= s.take(i));
        assert(is_ascii_digit(s[i]));
    } else {
        assert(s.take(i) =~= s);
    }
}

/// `str::parse::<u32>`: `Some(value)` when the text is an optional `+`
/// followed by decimal digits whose value fits in a `u32`.
pub fn parse_u32(s: &str) -> (r: Option<u32>)
    ensures
        r is Some <==> parses_as_u32(s@),
        r matches Some(v) ==> v as nat == digits_value(unsigned_digits(s@)),
{
    let cs = to_chars(s);
    let start: usize = if cs.len() > 0 && cs[0] == '+' {
        1
    } else {
        0
    };
    let ghost d = unsigned_digits(s@);
    assert(d =~= cs@.subrange(start as int, cs.len() as int));
    if start >= cs.len() {
        return None;
    }
    let mut value: u64 = 0;
    let mut i: usize = start;
    while i < cs.len()
        invariant
            start <= i <= cs.len(),
            cs@ == s@,
            d == unsigned_digits(s@),
            d == cs@.subrange(start as int, cs.len() as int),
            forall|j: int| 0 <= j < i - start ==> is_ascii_digit(#[trigger] d[j]),
            value == digits_value(d.take(i - start)),
            value <= u32::MAX,
        decreases cs.len() - i,
    {
        let c = cs[i];
        if !('0' <= c && c <= '9') {
            assert(d[i - start] == c);
            assert(!is_ascii_digit(d[i - start]));
            return None;
        }
        let digit: u64 = (c as u32 - 48) as u64;
        proof {
            let t = d.take(i - start + 1);
            assert(t.drop_last() =~= d.take(i - start));
            assert(t.last() == c);
        }
        let next = value * 10 + digit;
        if next > 4294967295u64 {
            proof {
                assert forall|j: int| 0 <= j < i - start + 1 implies is_ascii_digit(
                    #[trigger] d.take(i - start + 1)[j],
                ) by {
                    if j < i - start {
                        assert(d.take(i - start + 1)[j] == d[j]);
                    }
                }
                if parses_as_u32(s@) {
                    assert(forall|j: int| 0 <= j < d.len() ==> is_ascii_digit(#[trigger] d[j]));
                    lemma_digits_value_monotone(d, i - start + 1);
                }
            }
            return None;
        }
        value = next;
        i = i + 1;
    }
    assert(d.take(cs.len() - start) =~= d);
    Some(value as u32)
}

/// Whether `s` is accepted as a decimal `usize` by `str::parse::<usize>`: an
/// optional `+` followed by at least one ASCII digit, with a value that fits.
pub open spec fn parses_as_usize(s: Seq<char>) -> bool {
    let d = unsigned_digits(s);
    &&& d.len() > 0
    &&& forall|i: int| 0 <= i < d.len() ==> is_ascii_digit(#[trigger] d[i])
    &&& digits_value(d) <= usize::MAX
}

/// `str::parse::<usize>`: `Some(value)` when the text is an optional `+`
/// followed by decimal digits whose value fits in a `usize`.
pub fn parse_usize(s: &str) -> (r: Option<usize>)
    ensures
        r is Some <==> parses_as_usize(s@),
        r matches Some(v) ==> v as nat == digits_value(unsigned_digits(s@)),
{
    let cs = to_chars(s);
    let start: usize = if cs.len() > 0 && cs[0] == '+' {
        1
    } else {
        0
    };
    let ghost d = unsigned_digits(s@);
    assert(d =~= cs@.subrange(start as int, cs.len() as int));
    if start >= cs.len() {
        return None;
    }
    let mut value: usize = 0;
    let mut i: usize = start;
    while i < cs.len()
        invariant
            start <= i <= cs.len(),
            cs@ == s@,
            d == unsigned_digits(s@),
            d == cs@.subrange(start as int, cs.len() as int),
            forall|j: int| 0 <= j < i - start ==> is_ascii_digit(#[trigger] d[j]),
            value == digits_value(d.take(i - start)),
        decreases cs.len() - i,
    {
        let c = cs[i];
        if !('0' <= c && c <= '9') {
            assert(d[i - start] == c);
            assert(!is_ascii_digit(d[i - start]));
            return None;
        }
        let digit: usize = (c as u32 - 48) as usize;
        proof {
            let t = d.take(i - start + 1);
            assert(t.drop_last() =~= d.take(i - start));
            assert(t.last() == c);
        }
        let next = match value.checked_mul(10) {
            Some(m) => m.checked_add(digit),
            None => None,
        };
        match next {
            Some(n) => {
                value = n;
            },
            None => {
                proof {
                    assert forall|j: int| 0 <= j < i - start + 1 implies is_ascii_digit(
                        #[trigger] d.take(i - start + 1)[j],
                    ) by {
                        if j < i - start {
                            assert(d.take(i - start + 1)[j] == d[j]);
                        }
                    }
                    if parses_as_usize(s@) {
                        assert(forall|j: int| 0 <= j < d.len() ==> is_ascii_digit(#[trigger] d[j]));
                        lemma_digits_value_monotone(d, i - start + 1);
                    }
                }
                return None;
            },
        }
        i = i + 1;
    }
    assert(d.take(cs.len() - start) =~= d);
    Some(value)
}

} // verus!
