//! Schema migrations: splitting a migration script into statements
//! (trigger bodies stay whole, comments are dropped), recognising a column
//! that already exists, and database size information.
use vstd::prelude::*;

use crate::text::{
    contains, ends_with, from_chars, starts_with, str_contains, str_to_uppercase, to_chars, trim,
    trim_chars, trim_end_char, trim_end_char_chars, unicode_upper, upper_text, lemma_trim_nonempty,
    lemma_trim_nonempty_witness, unicode_white_space, is_ascii_char, lemma_trim_bounds,
    lemma_trim_keeps_between, lemma_trim_end_char_keeps, trim_start, lemma_trim_start_keeps,
    lemma_trim_end_long, trim_end, lemma_trim_surrounding,
};

verus! {

broadcast use vstd::string::group_string_axioms;

// ---------------------------------------------------------------------------
// Lines
// ---------------------------------------------------------------------------

/// A line without the carriage return that ended it, if any.
pub open spec fn strip_cr(line: Seq<char>) -> Seq<char> {
    if line.len() > 0 && line.last() == '\r' {
        line.drop_last()
    } else {
        line
    }
}

/// The finished lines of a text and the line still open at its end.
pub open spec fn line_split(s: Seq<char>) -> (Seq<Seq<char>>, Seq<char>)
    decreases s.len(),
{
    if s.len() == 0 {
        (Seq::empty(), Seq::empty())
    } else {
        let (done, cur) = line_split(s.drop_last());
        if s.last() == '\n' {
            (done.push(strip_cr(cur)), Seq::empty())
        } else {
            (done, cur.push(s.last()))
        }
    }
}

/// The lines of a text as `str::lines` gives them: split at each line feed,
/// a carriage return before it dropped, and no empty line after a final
/// line feed.
pub open spec fn lines_of(s: Seq<char>) -> Seq<Seq<char>> {
    let (done, cur) = line_split(s);
    if cur.len() > 0 {
        done.push(cur)
    } else {
        done
    }
}

/// The lines of a text.
pub fn split_lines(text: &str) -> (r: Vec<Vec<char>>)
    ensures
        r@.map_values(|l: Vec<char>| l@) == lines_of(text@),
{
    let cs = to_chars(text);
    let mut done: Vec<Vec<char>> = Vec::new();
    let mut cur: Vec<char> = Vec::new();
    let mut i: usize = 0;
    while i < cs.len()
        invariant
            i <= cs@.len(),
            cs@ == text@,
            (done@.map_values(|l: Vec<char>| l@), cur@) == line_split(cs@.take(i as int)),
        decreases cs.len() - i,
    {
        let c = cs[i];
        let ghost before = done@;
        proof {
            let t = cs@.take(i + 1);
            assert(t.drop_last() =~= cs@.take(i as int));
            assert(t.last() == c);
        }
        if c == '\n' {
            let mut line = cur;
            if line.len() > 0 && line[line.len() - 1] == '\r' {
                line.pop();
            }
            done.push(line);
            cur = Vec::new();
            proof {
                assert(done@.map_values(|l: Vec<char>| l@) =~= before.map_values(|l: Vec<char>| l@).push(
                    done@.last()@,
                ));
                assert(cur@ =~= Seq::<char>::empty());
            }
        } else {
            cur.push(c);
        }
        i = i + 1;
    }
    assert(cs@.take(cs@.len() as int) =~= cs@);
    if cur.len() > 0 {
        let ghost before = done@;
        done.push(cur);
        proof {
            assert(done@.map_values(|l: Vec<char>| l@) =~= before.map_values(|l: Vec<char>| l@).push(
                done@.last()@,
            ));
        }
    }
    done
}

// ---------------------------------------------------------------------------
// Statements
// ---------------------------------------------------------------------------

/// The state of the statement splitter: statements found, the statement
/// being read, and whether it is inside a trigger body.
pub struct SplitState {
    pub statements: Seq<Seq<char>>,
    pub current: Seq<char>,
    pub in_trigger: bool,
}

/// Whether a trimmed line is a comment to skip: it starts with `--` and
/// does not mention `CREATE`.
pub open spec fn comment_line(t: Seq<char>) -> bool {
    starts_with(t, "--"@) && !contains(t, "CREATE"@)
}

/// Whether a statement is worth keeping: not empty and not a comment.
pub open spec fn keep_statement(stmt: Seq<char>) -> bool {
    stmt.len() > 0 && !starts_with(stmt, "--"@)
}

/// One line read by the splitter.  A comment line is skipped.  Otherwise
/// the line joins the current statement; a line starting (in upper case)
/// with `CREATE TRIGGER` opens a trigger body, which a line starting with
/// `END;` closes and emits whole; outside a trigger body, a line ending
/// with `;` ends the statement, which is emitted trimmed and without its
/// trailing semicolons unless that leaves it empty or a comment.
pub open spec fn split_step(st: SplitState, line: Seq<char>) -> SplitState {
    let t = trim(line);
    if comment_line(t) {
        st
    } else {
        let upper = upper_text(t);
        let in_trigger = st.in_trigger || starts_with(upper, "CREATE TRIGGER"@);
        let current = st.current + line + seq!['\n'];
        if in_trigger && starts_with(upper, "END;"@) {
            SplitState { statements: st.statements.push(trim(current)), current: Seq::empty(), in_trigger: false }
        } else if !in_trigger && ends_with(t, seq![';']) {
            let stmt = trim_end_char(trim(current), ';');
            SplitState {
                statements: if keep_statement(stmt) {
                    st.statements.push(stmt)
                } else {
                    st.statements
                },
                current: Seq::empty(),
                in_trigger: false,
            }
        } else {
            SplitState { statements: st.statements, current, in_trigger }
        }
    }
}

/// The splitter's state after the first `n` lines.
pub open spec fn split_upto(lines: Seq<Seq<char>>, n: int) -> SplitState
    decreases n,
{
    if n <= 0 {
        SplitState { statements: Seq::empty(), current: Seq::empty(), in_trigger: false }
    } else {
        split_step(split_upto(lines, n - 1), lines[n - 1])
    }
}

/// The statements of a script given as lines: those the splitter emits,
/// then what remains at the end (trimmed, without trailing semicolons)
/// unless it is empty or a comment.
pub open spec fn statements_of_lines(lines: Seq<Seq<char>>) -> Seq<Seq<char>> {
    let st = split_upto(lines, lines.len() as int);
    let remaining = trim(st.current);
    if remaining.len() > 0 && !starts_with(remaining, "--"@) {
        st.statements.push(trim_end_char(remaining, ';'))
    } else {
        st.statements
    }
}

/// The statements of a migration script.
pub open spec fn sql_statements(sql: Seq<char>) -> Seq<Seq<char>> {
    statements_of_lines(lines_of(sql))
}

/// The lines of a script that are not comment lines.
pub open spec fn without_comment_lines(lines: Seq<Seq<char>>) -> Seq<Seq<char>>
    decreases lines.len(),
{
    if lines.len() == 0 {
        Seq::empty()
    } else {
        let rest = without_comment_lines(lines.drop_last());
        if comment_line(trim(lines.last())) {
            rest
        } else {
            rest.push(lines.last())
        }
    }
}

proof fn lemma_split_prefix(lines: Seq<Seq<char>>, n: int)
    requires
        0 <= n <= lines.len(),
    ensures
        split_upto(lines, n) == split_upto(lines.take(n), n),
    decreases n,
{
    if n > 0 {
        lemma_split_prefix(lines, n - 1);
        lemma_split_prefix(lines.take(n), n - 1);
        assert(lines.take(n).take(n - 1) =~= lines.take(n - 1));
    }
}

proof fn lemma_split_without_comments(lines: Seq<Seq<char>>)
    ensures
        split_upto(lines, lines.len() as int) == split_upto(
            without_comment_lines(lines),
            without_comment_lines(lines).len() as int,
        ),
    decreases lines.len(),
{
    if lines.len() > 0 {
        let p = lines.drop_last();
        lemma_split_without_comments(p);
        lemma_split_prefix(lines, lines.len() - 1);
        assert(lines.take(lines.len() - 1) =~= p);
        let w = without_comment_lines(p);
        if !comment_line(trim(lines.last())) {
            let wl = w.push(lines.last());
            lemma_split_prefix(wl, w.len() as int);
            assert(wl.take(w.len() as int) =~= w);
        }
    }
}

/// Comment lines do not count: a script gives the same statements with its
/// comment lines left out.
pub proof fn law_comment_lines_are_ignored(lines: Seq<Seq<char>>)
    ensures
        statements_of_lines(without_comment_lines(lines)) == statements_of_lines(lines),
{
    lemma_split_without_comments(lines);
}

proof fn lemma_split_statements_not_empty(lines: Seq<Seq<char>>, n: int)
    requires
        0 <= n <= lines.len(),
    ensures
        forall|i: int|
            0 <= i < split_upto(lines, n).statements.len() ==> #[trigger] split_upto(lines, n).statements[i].len() > 0,
    decreases n,
{
    if n > 0 {
        lemma_split_statements_not_empty(lines, n - 1);
        let st = split_upto(lines, n - 1);
        let line = lines[n - 1];
        let t = trim(line);
        if !comment_line(t) {
            let upper = upper_text(t);
            let in_trigger = st.in_trigger || starts_with(upper, "CREATE TRIGGER"@);
            let current = st.current + line + seq!['\n'];
            if in_trigger && starts_with(upper, "END;"@) {
                reveal_strlit("END;");
                if t.len() == 0 {
                    assert(upper =~= Seq::<char>::empty());
                }
                if t.len() > 0 {
                    lemma_trim_nonempty_witness(line);
                    let j = choose|j: int| 0 <= j < line.len() && !unicode_white_space(#[trigger] line[j]);
                    assert(current[st.current.len() + j] == line[j]);
                    lemma_trim_nonempty(current, st.current.len() + j);
                }
            }
        }
    }
}

/// Positions `a <= k <= b` of `s` where `s[a]` and `s[b]` are not white
/// space and `s[k]` is not a semicolon.
spec fn inner_char_at(s: Seq<char>, a: int, k: int, b: int) -> bool {
    0 <= a <= k <= b < s.len() && !unicode_white_space(s[a]) && !unicode_white_space(s[b]) && s[k] != ';'
}

/// Whether something other than semicolons is left of `s` once it is
/// trimmed.
spec fn has_inner_char(s: Seq<char>) -> bool {
    exists|a: int, k: int, b: int| inner_char_at(s, a, k, b)
}

spec fn all_white(s: Seq<char>) -> bool {
    forall|i: int| 0 <= i < s.len() ==> unicode_white_space(#[trigger] s[i])
}

/// What the splitter keeps true of the statement being read: inside a
/// trigger body it holds more than semicolons, and otherwise it is white
/// space or holds more than semicolons.
spec fn split_inv(st: SplitState) -> bool {
    &&& st.in_trigger ==> has_inner_char(st.current)
    &&& has_inner_char(st.current) || all_white(st.current)
}

proof fn lemma_inner_char_shift(pre: Seq<char>, s: Seq<char>, post: Seq<char>)
    requires
        has_inner_char(s),
    ensures
        has_inner_char(pre + s + post),
{
    let (a, k, b) = choose|a: int, k: int, b: int| inner_char_at(s, a, k, b);
    let x = pre + s + post;
    let o = pre.len() as int;
    assert(x[o + a] == s[a] && x[o + k] == s[k] && x[o + b] == s[b]);
    assert(inner_char_at(x, o + a, o + k, o + b));
}

proof fn lemma_line_inner_char(line: Seq<char>, m: int)
    requires
        0 <= m < trim(line).len(),
        trim(line)[m] != ';',
    ensures
        has_inner_char(line),
{
    let t = trim(line);
    lemma_trim_bounds(line);
    let p = choose|p: int|
        0 <= p && p + t.len() <= line.len() && t == line.subrange(p, p + t.len())
            && !unicode_white_space(#[trigger] line[p]) && !unicode_white_space(line[p + t.len() - 1]);
    assert(line[p + m] == t[m]);
    assert(inner_char_at(line, p, p + m, p + t.len() - 1));
}

proof fn lemma_split_inv(lines: Seq<Seq<char>>, n: int)
    requires
        0 <= n <= lines.len(),
    ensures
        split_inv(split_upto(lines, n)),
    decreases n,
{
    if n == 0 {
        assert(all_white(Seq::<char>::empty()));
    } else {
        lemma_split_inv(lines, n - 1);
        let st = split_upto(lines, n - 1);
        let line = lines[n - 1];
        let t = trim(line);
        if !comment_line(t) {
            let upper = upper_text(t);
            let in_trigger = st.in_trigger || starts_with(upper, "CREATE TRIGGER"@);
            let current = st.current + line + seq!['\n'];
            assert(all_white(Seq::<char>::empty()));
            reveal_strlit("CREATE TRIGGER");
            reveal_strlit("END;");
            if t.len() == 0 {
                assert(upper =~= Seq::<char>::empty());
                assert forall|j: int| 0 <= j < line.len() implies unicode_white_space(#[trigger] line[j]) by {
                    if !unicode_white_space(line[j]) {
                        lemma_trim_nonempty(line, j);
                    }
                }
                if has_inner_char(st.current) {
                    lemma_inner_char_shift(Seq::empty(), st.current, line + seq!['\n']);
                    assert(Seq::<char>::empty() + st.current + (line + seq!['\n']) =~= current);
                } else {
                    assert forall|i: int| 0 <= i < current.len() implies unicode_white_space(#[trigger] current[i]) by {
                        if i < st.current.len() {
                            assert(current[i] == st.current[i]);
                        } else if i < st.current.len() + line.len() {
                            assert(current[i] == line[i - st.current.len()]);
                        } else {
                            assert(current[i] == '\n');
                        }
                    }
                }
            } else if exists|m: int| 0 <= m < t.len() && t[m] != ';' {
                let m = choose|m: int| 0 <= m < t.len() && t[m] != ';';
                lemma_line_inner_char(line, m);
                lemma_inner_char_shift(st.current, line, seq!['\n']);
            } else {
                assert forall|i: int| 0 <= i < t.len() implies is_ascii_char(#[trigger] t[i]) by {
                    assert(t[i] == ';');
                }
                assert(upper[0] == ';');
                assert(!starts_with(upper, "CREATE TRIGGER"@)) by {
                    if starts_with(upper, "CREATE TRIGGER"@) {
                        assert(upper.subrange(0, 14)[0] == upper[0]);
                    }
                }
                assert(!starts_with(upper, "END;"@)) by {
                    if starts_with(upper, "END;"@) {
                        assert(upper.subrange(0, 4)[0] == upper[0]);
                    }
                }
                assert(ends_with(t, seq![';'])) by {
                    assert(t.subrange(t.len() - 1, t.len() as int) =~= seq![';']);
                }
                if in_trigger {
                    lemma_inner_char_shift(Seq::empty(), st.current, line + seq!['\n']);
                    assert(Seq::<char>::empty() + st.current + (line + seq!['\n']) =~= current);
                }
            }
        }
    }
}

/// No statement of a script is empty: a trigger body ends with its `END;`
/// line, other statements are kept only when something is left of them,
/// and what remains at the end holds more than white space and semicolons
/// when it is kept.
pub proof fn law_statements_not_empty(lines: Seq<Seq<char>>)
    ensures
        forall|i: int|
            0 <= i < statements_of_lines(lines).len() ==> #[trigger] statements_of_lines(lines)[i].len() > 0,
{
    let n = lines.len() as int;
    lemma_split_statements_not_empty(lines, n);
    lemma_split_inv(lines, n);
    let st = split_upto(lines, n);
    let remaining = trim(st.current);
    if remaining.len() > 0 && !starts_with(remaining, "--"@) {
        if !has_inner_char(st.current) {
            lemma_trim_nonempty_witness(st.current);
        }
        let (a, k, b) = choose|a: int, k: int, b: int| inner_char_at(st.current, a, k, b);
        lemma_trim_keeps_between(st.current, a, k, b);
        let j = choose|j: int| 0 <= j < remaining.len() && #[trigger] remaining[j] == st.current[k];
        lemma_trim_end_char_keeps(remaining, ';', j);
        let r = statements_of_lines(lines);
        assert forall|i: int| 0 <= i < r.len() implies #[trigger] r[i].len() > 0 by {
            if i < st.statements.len() {
                assert(r[i] == st.statements[i]);
            }
        }
    }
}

/// Whether some stretch of a statement reads `CREATE TRIGGER` at its start
/// once upper-cased: the statement is a trigger body.
pub open spec fn names_trigger(stmt: Seq<char>) -> bool {
    exists|i: int, j: int|
        0 <= i <= j <= stmt.len() && starts_with(upper_text(#[trigger] stmt.subrange(i, j)), "CREATE TRIGGER"@)
}

/// A stretch `p..q` of `s` that starts and ends with characters other than
/// white space and opens a trigger body.
spec fn trigger_head_at(s: Seq<char>, p: int, q: int) -> bool {
    &&& 0 <= p < q <= s.len()
    &&& !unicode_white_space(s[p])
    &&& !unicode_white_space(s[q - 1])
    &&& starts_with(upper_text(s.subrange(p, q)), "CREATE TRIGGER"@)
}

spec fn has_trigger_head(s: Seq<char>) -> bool {
    exists|p: int, q: int| trigger_head_at(s, p, q)
}

/// What the splitter keeps true of trigger bodies: inside one, the
/// statement being read holds its `CREATE TRIGGER` line, and a statement
/// found that ends with a semicolon is a trigger body.
spec fn trigger_inv(st: SplitState) -> bool {
    &&& st.in_trigger ==> has_trigger_head(st.current)
    &&& forall|i: int|
        0 <= i < st.statements.len() && ends_with(#[trigger] st.statements[i], seq![';'])
            ==> names_trigger(st.statements[i])
}

proof fn lemma_trigger_head_shift(pre: Seq<char>, s: Seq<char>, post: Seq<char>, p: int, q: int)
    requires
        trigger_head_at(s, p, q),
    ensures
        has_trigger_head(pre + s + post),
{
    let x = pre + s + post;
    let o = pre.len() as int;
    assert(x[o + p] == s[p] && x[o + q - 1] == s[q - 1]);
    assert(x.subrange(o + p, o + q) =~= s.subrange(p, q));
    assert(trigger_head_at(x, o + p, o + q));
}

proof fn lemma_trimmed_names_trigger(s: Seq<char>)
    requires
        has_trigger_head(s),
    ensures
        names_trigger(trim(s)),
{
    let (p, q) = choose|p: int, q: int| trigger_head_at(s, p, q);
    lemma_trim_start_keeps(s, p);
    let k0 = choose|k0: int| 0 <= k0 <= p && trim_start(s) == s.subrange(k0, s.len() as int);
    let ts = trim_start(s);
    assert(ts[q - 1 - k0] == s[q - 1]);
    lemma_trim_end_long(ts, q - 1 - k0);
    let t = trim(s);
    assert(t.subrange(p - k0, q - k0) =~= s.subrange(p, q)) by {
        assert forall|i: int| 0 <= i < q - p implies #[trigger] t.subrange(p - k0, q - k0)[i] == s.subrange(p, q)[i] by {
            assert(t[p - k0 + i] == ts[p - k0 + i]);
            assert(ts[p - k0 + i] == s[p + i]);
        }
    }
    assert(starts_with(upper_text(t.subrange(p - k0, q - k0)), "CREATE TRIGGER"@));
}

proof fn lemma_trim_end_char_last(u: Seq<char>, c: char)
    ensures
        trim_end_char(u, c).len() > 0 ==> trim_end_char(u, c).last() != c,
    decreases u.len(),
{
    if u.len() > 0 && u.last() == c {
        lemma_trim_end_char_last(u.drop_last(), c);
    }
}

proof fn lemma_not_ending_semicolon(u: Seq<char>)
    requires
        trim_end_char(u, ';').len() > 0,
    ensures
        !ends_with(trim_end_char(u, ';'), seq![';']),
{
    lemma_trim_end_char_last(u, ';');
    let v = trim_end_char(u, ';');
    if ends_with(v, seq![';']) {
        assert(v.subrange(v.len() - 1, v.len() as int)[0] == v.last());
    }
}

proof fn lemma_split_triggers(lines: Seq<Seq<char>>, n: int)
    requires
        0 <= n <= lines.len(),
    ensures
        trigger_inv(split_upto(lines, n)),
    decreases n,
{
    if n > 0 {
        lemma_split_triggers(lines, n - 1);
        let st = split_upto(lines, n - 1);
        let line = lines[n - 1];
        let t = trim(line);
        if !comment_line(t) {
            let upper = upper_text(t);
            let opens = starts_with(upper, "CREATE TRIGGER"@);
            let in_trigger = st.in_trigger || opens;
            let current = st.current + line + seq!['\n'];
            reveal_strlit("CREATE TRIGGER");
            if in_trigger {
                if st.in_trigger {
                    let (p, q) = choose|p: int, q: int| trigger_head_at(st.current, p, q);
                    lemma_trigger_head_shift(Seq::empty(), st.current, line + seq!['\n'], p, q);
                    assert(Seq::<char>::empty() + st.current + (line + seq!['\n']) =~= current);
                } else {
                    if t.len() == 0 {
                        assert(upper =~= Seq::<char>::empty());
                    }
                    lemma_trim_bounds(line);
                    let p = choose|p: int|
                        0 <= p && p + t.len() <= line.len() && t == line.subrange(p, p + t.len())
                            && !unicode_white_space(#[trigger] line[p]) && !unicode_white_space(line[p + t.len() - 1]);
                    assert(trigger_head_at(line, p, p + t.len()));
                    lemma_trigger_head_shift(st.current, line, seq!['\n'], p, p + t.len());
                }
            }
            let next = split_step(st, line);
            if in_trigger && starts_with(upper, "END;"@) {
                lemma_trimmed_names_trigger(current);
                assert forall|i: int|
                    0 <= i < next.statements.len() && ends_with(#[trigger] next.statements[i], seq![';'])
                        implies names_trigger(next.statements[i]) by {
                    if i < st.statements.len() {
                        assert(next.statements[i] == st.statements[i]);
                    }
                }
            } else if !in_trigger && ends_with(t, seq![';']) {
                let stmt = trim_end_char(trim(current), ';');
                if keep_statement(stmt) {
                    lemma_not_ending_semicolon(trim(current));
                }
                assert forall|i: int|
                    0 <= i < next.statements.len() && ends_with(#[trigger] next.statements[i], seq![';'])
                        implies names_trigger(next.statements[i]) by {
                    if i < st.statements.len() {
                        assert(next.statements[i] == st.statements[i]);
                    }
                }
            }
        }
    }
}

/// Only a trigger body ends with a semicolon: other statements lose their
/// trailing semicolons, so a statement that ends with one holds a stretch
/// that reads `CREATE TRIGGER` at its start once upper-cased.
pub proof fn law_semicolon_ends_only_triggers(lines: Seq<Seq<char>>)
    ensures
        forall|i: int|
            0 <= i < statements_of_lines(lines).len() && ends_with(
                #[trigger] statements_of_lines(lines)[i],
                seq![';'],
            ) ==> names_trigger(statements_of_lines(lines)[i]),
{
    let n = lines.len() as int;
    lemma_split_triggers(lines, n);
    law_statements_not_empty(lines);
    let st = split_upto(lines, n);
    let remaining = trim(st.current);
    let r = statements_of_lines(lines);
    if remaining.len() > 0 && !starts_with(remaining, "--"@) {
        assert(r[r.len() - 1].len() > 0);
        lemma_not_ending_semicolon(remaining);
    }
    assert forall|i: int| 0 <= i < r.len() && ends_with(#[trigger] r[i], seq![';']) implies names_trigger(r[i]) by {
        if i < st.statements.len() {
            assert(r[i] == st.statements[i]);
        }
    }
}

/// Lines joined with line feeds between them (`lines.join("\n")`).
pub open spec fn join_lines(lines: Seq<Seq<char>>) -> Seq<char>
    decreases lines.len(),
{
    if lines.len() == 0 {
        Seq::empty()
    } else if lines.len() == 1 {
        lines[0]
    } else {
        join_lines(lines.drop_last()) + seq!['\n'] + lines.last()
    }
}

/// Whether a line holds no line feed.
pub open spec fn single_line(x: Seq<char>) -> bool {
    forall|i: int| 0 <= i < x.len() ==> #[trigger] x[i] != '\n'
}

/// Whether a line ends with a carriage return.
pub open spec fn ends_with_cr(x: Seq<char>) -> bool {
    x.len() > 0 && x.last() == '\r'
}

proof fn lemma_line_split_plain(p: Seq<char>, x: Seq<char>)
    requires
        single_line(x),
    ensures
        line_split(p + x) == (line_split(p).0, line_split(p).1 + x),
    decreases x.len(),
{
    if x.len() == 0 {
        assert(p + x =~= p);
        assert(line_split(p).1 + x =~= line_split(p).1);
    } else {
        lemma_line_split_plain(p, x.drop_last());
        assert((p + x).drop_last() =~= p + x.drop_last());
        assert((p + x).last() == x.last());
        assert(line_split(p).1 + x.drop_last() + seq![x.last()] =~= line_split(p).1 + x);
        assert((line_split(p).1 + x.drop_last()).push(x.last()) =~= line_split(p).1 + x);
    }
}

proof fn lemma_line_split_parts_single(s: Seq<char>)
    ensures
        forall|i: int| 0 <= i < line_split(s).0.len() ==> single_line(#[trigger] line_split(s).0[i]),
        single_line(line_split(s).1),
    decreases s.len(),
{
    if s.len() > 0 {
        lemma_line_split_parts_single(s.drop_last());
        let (done, cur) = line_split(s.drop_last());
        if s.last() == '\n' {
            let sc = strip_cr(cur);
            assert(single_line(sc)) by {
                assert forall|i: int| 0 <= i < sc.len() implies #[trigger] sc[i] != '\n' by {
                    assert(sc[i] == cur[i]);
                }
            }
            assert forall|i: int| 0 <= i < done.push(sc).len() implies single_line(#[trigger] done.push(sc)[i]) by {
                if i < done.len() {
                    assert(done.push(sc)[i] == done[i]);
                }
            }
            assert(single_line(Seq::<char>::empty()));
        } else {
            assert forall|i: int| 0 <= i < cur.push(s.last()).len() implies #[trigger] cur.push(s.last())[i]
                != '\n' by {
                if i < cur.len() {
                    assert(cur.push(s.last())[i] == cur[i]);
                }
            }
        }
    }
}

proof fn lemma_line_split_join(lines: Seq<Seq<char>>)
    requires
        lines.len() > 0,
        forall|i: int| 0 <= i < lines.len() ==> single_line(#[trigger] lines[i]),
        forall|i: int| 0 <= i < lines.len() - 1 ==> !ends_with_cr(#[trigger] lines[i]),
    ensures
        line_split(join_lines(lines)) == (lines.drop_last(), lines.last()),
    decreases lines.len(),
{
    if lines.len() == 1 {
        lemma_line_split_plain(Seq::empty(), lines[0]);
        assert(Seq::<char>::empty() + lines[0] =~= lines[0]);
        assert(line_split(Seq::<char>::empty()).1 + lines[0] =~= lines[0]);
        assert(lines.drop_last() =~= Seq::<Seq<char>>::empty());
    } else {
        let front = lines.drop_last();
        assert forall|i: int| 0 <= i < front.len() implies single_line(#[trigger] front[i]) by {
            assert(front[i] == lines[i]);
        }
        assert forall|i: int| 0 <= i < front.len() - 1 implies !ends_with_cr(#[trigger] front[i]) by {
            assert(front[i] == lines[i]);
        }
        lemma_line_split_join(front);
        let j = join_lines(front);
        let jn = j.push('\n');
        assert(jn.drop_last() =~= j);
        assert(!ends_with_cr(lines[lines.len() - 2]));
        assert(strip_cr(front.last()) == front.last());
        assert(front.drop_last().push(front.last()) =~= front);
        assert(single_line(lines.last()));
        lemma_line_split_plain(jn, lines.last());
        assert(jn + lines.last() =~= join_lines(lines));
        assert(Seq::<char>::empty() + lines.last() =~= lines.last());
    }
}

proof fn lemma_trailing_empty_line(lines: Seq<Seq<char>>)
    ensures
        statements_of_lines(lines.push(Seq::empty())) == statements_of_lines(lines),
{
    let n = lines.len() as int;
    let l2 = lines.push(Seq::<char>::empty());
    lemma_split_prefix(l2, n);
    assert(l2.take(n) =~= lines);
    let st = split_upto(lines, n);
    let e = Seq::<char>::empty();
    assert(trim(e) =~= e) by {
        assert(trim_start(e) == e);
        assert(trim_end(e) == e);
    }
    assert(!starts_with(e, "--"@)) by {
        reveal_strlit("--");
    }
    assert(upper_text(e) =~= e);
    assert(!starts_with(e, "CREATE TRIGGER"@)) by {
        reveal_strlit("CREATE TRIGGER");
    }
    assert(!starts_with(e, "END;"@)) by {
        reveal_strlit("END;");
    }
    let current = st.current + e + seq!['\n'];
    assert(split_upto(l2, n + 1) == SplitState { statements: st.statements, current, in_trigger: st.in_trigger });
    let nl = seq!['\n'];
    assert(unicode_white_space(nl[0]));
    lemma_trim_surrounding(st.current, Seq::empty(), nl);
    assert(Seq::<char>::empty() + st.current + nl =~= current);
}

proof fn lemma_kept_single(lines: Seq<Seq<char>>)
    requires
        forall|i: int| 0 <= i < lines.len() ==> single_line(#[trigger] lines[i]),
    ensures
        forall|i: int|
            0 <= i < without_comment_lines(lines).len() ==> single_line(#[trigger] without_comment_lines(lines)[i]),
    decreases lines.len(),
{
    if lines.len() > 0 {
        let front = lines.drop_last();
        assert forall|i: int| 0 <= i < front.len() implies single_line(#[trigger] front[i]) by {
            assert(front[i] == lines[i]);
        }
        lemma_kept_single(front);
        let w = without_comment_lines(front);
        assert forall|i: int| 0 <= i < w.push(lines.last()).len() implies single_line(#[trigger] w.push(lines.last())[i]) by {
            if i < w.len() {
                assert(w.push(lines.last())[i] == w[i]);
            }
        }
    }
}

/// Comment lines do not count, also when the script is rebuilt as text: the
/// script gives the same statements as its other lines joined with line
/// feeds.  Joining puts a line feed after every kept line but the last, so
/// the law is stated for scripts where none of those lines ends with a
/// carriage return (the line feed would take it away).
pub proof fn law_comment_lines_are_ignored_in_text(sql: Seq<char>)
    requires
        forall|i: int|
            0 <= i < without_comment_lines(lines_of(sql)).len() - 1 ==> !ends_with_cr(
                #[trigger] without_comment_lines(lines_of(sql))[i],
            ),
    ensures
        sql_statements(join_lines(without_comment_lines(lines_of(sql)))) == sql_statements(sql),
{
    let ls = lines_of(sql);
    let w = without_comment_lines(ls);
    law_comment_lines_are_ignored(ls);
    lemma_line_split_parts_single(sql);
    assert forall|i: int| 0 <= i < ls.len() implies single_line(#[trigger] ls[i]) by {
        let (done, cur) = line_split(sql);
        if i < done.len() {
            assert(ls[i] == done[i]);
        }
    }
    lemma_kept_single(ls);
    if w.len() > 0 {
        lemma_line_split_join(w);
        if w.last().len() > 0 {
            assert(w.drop_last().push(w.last()) =~= w);
        } else {
            assert(w.drop_last().push(Seq::<char>::empty()) =~= w);
            lemma_trailing_empty_line(w.drop_last());
        }
    } else {
        assert(line_split(Seq::<char>::empty()) == (Seq::<Seq<char>>::empty(), Seq::<char>::empty()));
    }
}

/// Views of character vectors.
pub open spec fn char_views(v: Seq<Vec<char>>) -> Seq<Seq<char>> {
    v.map_values(|l: Vec<char>| l@)
}

/// Whether a text starts with a prefix.
fn chars_start_with(s: &Vec<char>, p: &str) -> (r: bool)
    ensures
        r == starts_with(s@, p@),
{
    let pv = to_chars(p);
    crate::text::starts_with_exec(s, &pv)
}

/// Split a migration script into statements.
pub fn parse_sql_statements(sql: &str) -> (r: Vec<String>)
    ensures
        r.deep_view() == sql_statements(sql@),
{
    let lines = split_lines(sql);
    let ghost lv = char_views(lines@);
    let mut statements: Vec<String> = Vec::new();
    let mut current: Vec<char> = Vec::new();
    let mut in_trigger = false;
    let mut n: usize = 0;
    while n < lines.len()
        invariant
            n <= lines@.len(),
            lv == char_views(lines@),
            lv == lines_of(sql@),
            statements.deep_view() == split_upto(lv, n as int).statements,
            current@ == split_upto(lv, n as int).current,
            in_trigger == split_upto(lv, n as int).in_trigger,
        decreases lines.len() - n,
    {
        let line = &lines[n];
        let ghost st = split_upto(lv, n as int);
        assert(lv[n as int] == line@);
        let t = trim_chars(line);
        proof {
            reveal_strlit("--");
            reveal_strlit("CREATE");
            reveal_strlit("CREATE TRIGGER");
            reveal_strlit("END;");
        }
        let skip = chars_start_with(&t, "--") && !crate::text::contains_exec(&t, &to_chars("CREATE"));
        if !skip {
            let t_text = from_chars(&t);
            let upper = str_to_uppercase(t_text.as_str());
            let uv = to_chars(upper.as_str());
            if chars_start_with(&uv, "CREATE TRIGGER") {
                in_trigger = true;
            }
            let mut k: usize = 0;
            let ghost cur0 = current@;
            while k < line.len()
                invariant
                    k <= line@.len(),
                    current@ == cur0 + line@.take(k as int),
                decreases line.len() - k,
            {
                current.push(line[k]);
                proof {
                    assert(line@.take(k + 1) =~= line@.take(k as int).push(line@[k as int]));
                }
                k = k + 1;
            }
            current.push('\n');
            assert(line@.take(line@.len() as int) =~= line@);
            assert(current@ =~= st.current + line@ + seq!['\n']);
            let ghost before = statements.deep_view();
            if in_trigger && chars_start_with(&uv, "END;") {
                let stmt = trim_chars(&current);
                statements.push(from_chars(&stmt));
                current = Vec::new();
                in_trigger = false;
                proof {
                    assert(statements.deep_view() =~= before.push(trim(st.current + line@ + seq!['\n'])));
                }
            } else {
                let semi = t.len() > 0 && t[t.len() - 1] == ';';
                proof {
                    assert(semi == ends_with(t@, seq![';'])) by {
                        if t@.len() > 0 {
                            let sub = t@.subrange(t@.len() - 1, t@.len() as int);
                            assert(sub.len() == 1 && sub[0] == t@.last());
                            if semi {
                                assert(sub =~= seq![';']);
                            } else {
                                assert(sub[0] != seq![';'][0]);
                            }
                        }
                    }
                }
                if !in_trigger && semi {
                    let trimmed = trim_chars(&current);
                    let stmt = trim_end_char_chars(&trimmed, ';');
                    if stmt.len() > 0 && !chars_start_with(&stmt, "--") {
                        statements.push(from_chars(&stmt));
                        proof {
                            assert(statements.deep_view() =~= before.push(stmt@));
                        }
                    }
                    current = Vec::new();
                }
            }
        }
        proof {
            assert(split_upto(lv, n + 1) == split_step(st, lv[n as int]));
            assert(current@ =~= split_upto(lv, n + 1).current);
        }
        n = n + 1;
    }
    let remaining = trim_chars(&current);
    proof {
        reveal_strlit("--");
    }
    if remaining.len() > 0 && !chars_start_with(&remaining, "--") {
        let ghost before = statements.deep_view();
        let stmt = trim_end_char_chars(&remaining, ';');
        statements.push(from_chars(&stmt));
        proof {
            assert(statements.deep_view() =~= before.push(stmt@));
        }
    }
    statements
}

/// Whether a failed statement only tried to add a column that already
/// exists: the error mentions a duplicate column name and the statement
/// (in upper case) adds a column.  Such failures are skipped, which keeps
/// migrations idempotent.
pub fn is_duplicate_column(error_message: &str, statement: &str) -> (r: bool)
    ensures
        r == (contains(error_message@, "duplicate column name"@) && contains(
            unicode_upper(statement@),
            "ADD COLUMN"@,
        )),
{
    str_contains(error_message, "duplicate column name") && str_contains(
        str_to_uppercase(statement).as_str(),
        "ADD COLUMN",
    )
}

/// Information about a database.
#[derive(Clone, Debug)]
pub struct DbInfo {
    pub table_count: usize,
    pub page_size: usize,
    pub total_size_bytes: usize,
}

/// Database information from its table count, page size and page count;
/// the size is the page size times the page count.
pub fn db_info(table_count: i64, page_size: i64, page_count: i64) -> (r: DbInfo)
    requires
        i64::MIN <= page_size * page_count <= i64::MAX,
    ensures
        r.table_count == table_count as usize,
        r.page_size == page_size as usize,
        r.total_size_bytes == (page_size * page_count) as usize,
{
    let total = page_size * page_count;
    DbInfo {
        table_count: #[verifier::truncate] (table_count as usize),
        page_size: #[verifier::truncate] (page_size as usize),
        total_size_bytes: #[verifier::truncate] (total as usize),
    }
}

} // verus!
