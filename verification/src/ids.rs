//! Identifiers and timestamps: random UUIDs, UUID validation and the current
//! time as RFC 3339 text.
use vstd::prelude::*;

verus! {

/// An ASCII hexadecimal digit, either case.
pub open spec fn is_hex_digit(c: char) -> bool {
    ('0' <= c && c <= '9') || ('a' <= c && c <= 'f') || ('A' <= c && c <= 'F')
}

/// A lowercase ASCII hexadecimal digit.
pub open spec fn is_lower_hex_digit(c: char) -> bool {
    ('0' <= c && c <= '9') || ('a' <= c && c <= 'f')
}

/// Positions of the hyphens in the hyphenated form.
pub open spec fn is_hyphen_position(i: int) -> bool {
    i == 8 || i == 13 || i == 18 || i == 23
}

/// `xxxxxxxx-xxxx-xxxx-xxxx-xxxxxxxxxxxx` with hex digits of either case.
pub open spec fn hyphenated_form(s: Seq<char>) -> bool {
    &&& s.len() == 36
    &&& forall|i: int|
        0 <= i < 36 ==> if is_hyphen_position(i) {
            s[i] == '-'
        } else {
            is_hex_digit(#[trigger] s[i])
        }
}

/// 32 hex digits without hyphens.
pub open spec fn simple_form(s: Seq<char>) -> bool {
    s.len() == 32 && forall|i: int| 0 <= i < 32 ==> is_hex_digit(#[trigger] s[i])
}

/// ASCII lowercase of one character.
pub open spec fn ascii_lower(c: char) -> char {
    if 'A' <= c && c <= 'Z' {
        ((c as nat) + 32) as char
    } else {
        c
    }
}

/// Texts that `uuid::Uuid::parse_str` accepts: the simple form, the
/// hyphenated form, the hyphenated form in braces, or the hyphenated form
/// after a `urn:uuid:` prefix of any ASCII case.
pub open spec fn uuid_text(s: Seq<char>) -> bool {
    ||| simple_form(s)
    ||| hyphenated_form(s)
    ||| (s.len() == 38 && s[0] == '{' && s[37] == '}' && hyphenated_form(s.subrange(1, 37)))
    ||| (s.len() == 45 && s.take(9).map_values(|c: char| ascii_lower(c)) == "urn:uuid:"@
        && hyphenated_form(s.skip(9)))
}

/// The text of a random (version 4) UUID as `to_string` writes it:
/// hyphenated, lowercase, with the version digit `4`.
pub open spec fn random_uuid_text(s: Seq<char>) -> bool {
    &&& s.len() == 36
    &&& forall|i: int|
        0 <= i < 36 ==> if is_hyphen_position(i) {
            s[i] == '-'
        } else {
            is_lower_hex_digit(#[trigger] s[i])
        }
    &&& s[14] == '4'
}

/// `uuid::Uuid::new_v4().to_string()`: a fresh random UUID in hyphenated
/// lowercase form.  Which UUID comes out is chance; only its form is stated.
/// The call panics only when the operating system's random source fails,
/// which nothing here can rule out.
#[verifier::external_body]
pub(crate) fn new_uuid() -> (r: String)
    ensures
        random_uuid_text(r@),
{
    uuid::Uuid::new_v4().to_string()
}

/// `uuid::Uuid::parse_str(s).is_ok()`: whether the text is a UUID in one of
/// the accepted forms.
#[verifier::external_body]
pub(crate) fn is_uuid_text(s: &str) -> (r: bool)
    ensures
        r == uuid_text(s@),
{
    uuid::Uuid::parse_str(s).is_ok()
}

/// An ASCII decimal digit.
pub open spec fn decimal_digit(c: char) -> bool {
    '0' <= c && c <= '9'
}

/// Two decimal digits at `i` and `i + 1`.
pub open spec fn two_digits_at(s: Seq<char>, i: int) -> bool {
    decimal_digit(s[i]) && decimal_digit(s[i + 1])
}

/// The year of an RFC 3339 date as `chrono` writes it: four digits, or a
/// sign and at least four digits for years outside 0 to 9999.
pub open spec fn year_text(y: Seq<char>) -> bool {
    ||| y.len() == 4 && forall|k: int| 0 <= k < 4 ==> decimal_digit(#[trigger] y[k])
    ||| y.len() >= 5 && (y[0] == '+' || y[0] == '-') && forall|k: int|
        1 <= k < y.len() ==> decimal_digit(#[trigger] y[k])
}

/// `YEAR-MM-DDTHH:MM:SS`, a fraction of `f - 1` digits after a dot when
/// `f > 0`, and the offset `+00:00`.
pub open spec fn rfc3339_utc_with_fraction(s: Seq<char>, f: int) -> bool {
    let b = s.len() - 6;
    let t = b - f - 8;
    &&& t >= 11
    &&& s.subrange(b, s.len() as int) == seq!['+', '0', '0', ':', '0', '0']
    &&& f > 0 ==> s[b - f] == '.' && forall|k: int| b - f < k < b ==> decimal_digit(#[trigger] s[k])
    &&& year_text(s.subrange(0, t - 7))
    &&& s[t - 7] == '-' && two_digits_at(s, t - 6) && s[t - 4] == '-' && two_digits_at(s, t - 3)
    &&& s[t - 1] == 'T'
    &&& two_digits_at(s, t) && s[t + 2] == ':' && two_digits_at(s, t + 3) && s[t + 5] == ':'
        && two_digits_at(s, t + 6)
}

/// An RFC 3339 time in UTC as `chrono` writes it with `to_rfc3339`: date,
/// `T`, time with no fraction or one of 3, 6 or 9 digits, and `+00:00`.
pub open spec fn rfc3339_utc_text(s: Seq<char>) -> bool {
    ||| rfc3339_utc_with_fraction(s, 0)
    ||| rfc3339_utc_with_fraction(s, 4)
    ||| rfc3339_utc_with_fraction(s, 7)
    ||| rfc3339_utc_with_fraction(s, 10)
}

/// `chrono::Utc::now().to_rfc3339()`: the current time in UTC.  Which time
/// comes out depends on the clock; only its form is stated: the year, month
/// and day, `T`, hours, minutes and seconds with a fraction of 0, 3, 6 or 9
/// digits, and the offset `+00:00`.
#[verifier::external_body]
pub(crate) fn now_rfc3339() -> (r: String)
    ensures
        rfc3339_utc_text(r@),
{
    chrono::Utc::now().to_rfc3339()
}

/// A random UUID text is accepted by the UUID parser.
pub proof fn random_uuid_parses(s: Seq<char>)
    requires
        random_uuid_text(s),
    ensures
        uuid_text(s),
{
    assert forall|i: int| 0 <= i < 36 implies (if is_hyphen_position(i) {
        s[i] == '-'
    } else {
        is_hex_digit(#[trigger] s[i])
    }) by {
        if !is_hyphen_position(i) {
            assert(is_lower_hex_digit(s[i]));
        }
    }
    assert(hyphenated_form(s));
}

} // verus!
