//! JSON arrays of strings, the form in which records keep their labels,
//! assignees, tags and error lists, and JSON values of plain values, the
//! form in which pages keep their metadata.
//!
//! Writing goes through `serde_json::to_string`, reading through
//! `serde_json::from_str`.
use vstd::prelude::*;

use crate::text::{decimal, digit_char};

verus! {

/// The JSON escape of one character inside a string literal, as
/// `serde_json` writes it: quote and backslash are escaped, the control
/// characters `\b \t \n \f \r` use their short escapes, the other control
/// characters below U+0020 use `\u00xx` with lowercase hex digits, and every
/// other character stands for itself.
pub open spec fn json_escape(c: char) -> Seq<char> {
    if c == '"' {
        seq!['\\', '"']
    } else if c == '\\' {
        seq!['\\', '\\']
    } else if c == '\u{8}' {
        seq!['\\', 'b']
    } else if c == '\t' {
        seq!['\\', 't']
    } else if c == '\n' {
        seq!['\\', 'n']
    } else if c == '\u{c}' {
        seq!['\\', 'f']
    } else if c == '\r' {
        seq!['\\', 'r']
    } else if (c as nat) < 32 {
        seq!['\\', 'u', '0', '0', digit_char((c as nat) / 16), digit_char((c as nat) % 16)]
    } else {
        seq![c]
    }
}

/// The escaped contents of a string literal.
pub open spec fn json_escaped(s: Seq<char>) -> Seq<char>
    decreases s.len(),
{
    if s.len() == 0 {
        Seq::empty()
    } else {
        json_escaped(s.drop_last()) + json_escape(s.last())
    }
}

/// A JSON string literal.
pub open spec fn json_quoted(s: Seq<char>) -> Seq<char> {
    seq!['"'] + json_escaped(s) + seq!['"']
}

/// String literals separated by commas.
pub open spec fn json_items(items: Seq<Seq<char>>) -> Seq<char>
    decreases items.len(),
{
    if items.len() == 0 {
        Seq::empty()
    } else if items.len() == 1 {
        json_quoted(items[0])
    } else {
        json_items(items.drop_last()) + seq![','] + json_quoted(items.last())
    }
}

/// The compact JSON text of an array of strings, as `serde_json::to_string`
/// writes a `Vec<String>`.
pub open spec fn json_string_array(items: Seq<Seq<char>>) -> Seq<char> {
    seq!['['] + json_items(items) + seq![']']
}

/// What `serde_json::from_str::<Vec<String>>` reads from a text: the strings
/// of the array, or `None` when the text is not a JSON array of strings.
pub uninterp spec fn json_parse_strings(text: Seq<char>) -> Option<Seq<Seq<char>>>;

/// `serde_json::to_string` on a list of strings.  Serializing strings into
/// memory cannot fail, so the `"[]"` fallback that callers keep is never
/// taken.  The text is the compact JSON array, and `serde_json::from_str`
/// reads back exactly the strings that were written.
#[verifier::external_body]
pub(crate) fn json_encode_strings(items: &Vec<String>) -> (r: String)
    ensures
        r@ == json_string_array(items.deep_view()),
        json_parse_strings(r@) == Some(items.deep_view()),
{
    serde_json::to_string(items).unwrap_or_else(|_| "[]".to_string())
}

/// `serde_json::to_string` on one string: the JSON string literal, quoted
/// and escaped as `serde_json` writes it.  Serializing a string into memory
/// cannot fail.
#[verifier::external_body]
pub(crate) fn json_quote(s: &str) -> (r: String)
    ensures
        r@ == json_quoted(s@),
{
    serde_json::to_string(s).unwrap_or_default()
}

/// `serde_json::from_str::<Vec<String>>`, with a parse error turned into
/// `None`.  What the parser accepts is given a name.
#[verifier::external_body]
pub(crate) fn json_decode_strings(text: &str) -> (r: Option<Vec<String>>)
    ensures
        match r {
            Some(v) => json_parse_strings(text@) == Some(v.deep_view()),
            None => json_parse_strings(text@) is None,
        },
{
    serde_json::from_str::<Vec<String>>(text).ok()
}

/// The strings kept in an optional JSON column: none when the column is
/// empty or does not hold a JSON array of strings.
pub open spec fn strings_in(column: Option<Seq<char>>) -> Seq<Seq<char>> {
    match column {
        Some(t) => match json_parse_strings(t) {
            Some(v) => v,
            None => Seq::empty(),
        },
        None => Seq::empty(),
    }
}

/// Read the strings kept in an optional JSON column.
pub fn read_strings(column: &Option<String>) -> (r: Vec<String>)
    ensures
        r.deep_view() == strings_in(
            match column {
                Some(t) => Some(t@),
                None => None,
            },
        ),
{
    match column {
        Some(t) => match json_decode_strings(t.as_str()) {
            Some(v) => v,
            None => {
                let v: Vec<String> = Vec::new();
                assert(v.deep_view() =~= Seq::<Seq<char>>::empty());
                v
            },
        },
        None => {
            let v: Vec<String> = Vec::new();
            assert(v.deep_view() =~= Seq::<Seq<char>>::empty());
            v
        },
    }
}

// ---------------------------------------------------------------------------
// JSON values
// ---------------------------------------------------------------------------

/// A JSON value built from plain values.  Numbers are integers; an object
/// lists its members.
#[derive(Debug)]
pub enum JsonValue {
    Null,
    Bool(bool),
    Int(i64),
    UInt(u64),
    Str(String),
    Array(Vec<JsonValue>),
    Object(Vec<JsonMember>),
}

/// A member of a JSON object.
#[derive(Debug)]
pub struct JsonMember {
    pub key: String,
    pub value: JsonValue,
}

/// Whether `a` comes strictly before `b`, comparing code point by code point
/// (the order of `String`, which `serde_json` keeps object keys in).
pub open spec fn text_less(a: Seq<char>, b: Seq<char>) -> bool
    decreases a.len(),
{
    if a.len() == 0 {
        b.len() > 0
    } else if b.len() == 0 {
        false
    } else if a[0] != b[0] {
        (a[0] as nat) < (b[0] as nat)
    } else {
        text_less(a.drop_first(), b.drop_first())
    }
}

/// Whether a value is one that `serde_json` can hold: the members of every
/// object come in strictly increasing key order, so no key is repeated.
pub open spec fn json_wf(v: JsonValue) -> bool
    decreases v, 0nat,
{
    match v {
        JsonValue::Array(items) => {
            proof {
                assert(decreases_to!(items => items@));
            }
            json_elements_wf(items@, items@.len() as int)
        },
        JsonValue::Object(members) => {
            proof {
                assert(decreases_to!(members => members@));
            }
            json_members_wf(members@, members@.len() as int)
        },
        _ => true,
    }
}

/// Whether the first `n` of the values are well formed.
pub open spec fn json_elements_wf(items: Seq<JsonValue>, n: int) -> bool
    decreases items, n,
{
    if n <= 0 || n > items.len() {
        true
    } else {
        json_elements_wf(items, n - 1) && json_wf(items[n - 1])
    }
}

/// Whether the first `n` members have well-formed values and strictly
/// increasing keys.
pub open spec fn json_members_wf(members: Seq<JsonMember>, n: int) -> bool
    decreases members, n,
{
    if n <= 0 || n > members.len() {
        true
    } else {
        proof {
            assert(decreases_to!(members => members[n - 1]));
        }
        &&& json_members_wf(members, n - 1)
        &&& json_wf(members[n - 1].value)
        &&& (n >= 2 ==> text_less(members[n - 2].key@, members[n - 1].key@))
    }
}

/// The decimal text of an integer, with a minus sign when negative.
pub open spec fn int_text(i: int) -> Seq<char> {
    if i < 0 {
        seq!['-'] + decimal((-i) as nat)
    } else {
        decimal(i as nat)
    }
}

/// The compact JSON text of a value, as `serde_json` writes it: no white
/// space, strings quoted and escaped, members as `"key":value`.
pub open spec fn json_text(v: JsonValue) -> Seq<char>
    decreases v, 0nat,
{
    match v {
        JsonValue::Null => seq!['n', 'u', 'l', 'l'],
        JsonValue::Bool(b) => if b {
            seq!['t', 'r', 'u', 'e']
        } else {
            seq!['f', 'a', 'l', 's', 'e']
        },
        JsonValue::Int(i) => int_text(i as int),
        JsonValue::UInt(u) => decimal(u as nat),
        JsonValue::Str(s) => json_quoted(s@),
        JsonValue::Array(items) => {
            proof {
                assert(decreases_to!(items => items@));
            }
            seq!['['] + json_elements(items@, items@.len() as int) + seq![']']
        },
        JsonValue::Object(members) => {
            proof {
                assert(decreases_to!(members => members@));
            }
            seq!['{'] + json_members(members@, members@.len() as int) + seq!['}']
        },
    }
}

/// The texts of the first `n` values, separated by commas.
pub open spec fn json_elements(items: Seq<JsonValue>, n: int) -> Seq<char>
    decreases items, n,
{
    if n <= 0 || n > items.len() {
        Seq::empty()
    } else if n == 1 {
        json_text(items[0])
    } else {
        json_elements(items, n - 1) + seq![','] + json_text(items[n - 1])
    }
}

/// The first `n` members as `"key":value`, separated by commas.
pub open spec fn json_members(members: Seq<JsonMember>, n: int) -> Seq<char>
    decreases members, n,
{
    if n <= 0 || n > members.len() {
        Seq::empty()
    } else {
        proof {
            assert(decreases_to!(members => members[n - 1]));
        }
        let member = json_quoted(members[n - 1].key@) + seq![':'] + json_text(members[n - 1].value);
        if n == 1 {
            member
        } else {
            json_members(members, n - 1) + seq![','] + member
        }
    }
}

/// `serde_json::Value`, carried through opaquely.
#[verifier::external_type_specification]
#[verifier::external_body]
pub struct ExJsonValue(serde_json::Value);

/// The same value as a `serde_json::Value`, node by node: each variant
/// becomes the variant of the same kind, an object's members in their
/// order.  Nothing is stated of the result, which only `json_value_text`
/// reads.
#[verifier::external_body]
fn serde_value_of(v: &JsonValue) -> serde_json::Value {
    match v {
        JsonValue::Null => serde_json::Value::Null,
        JsonValue::Bool(b) => serde_json::Value::Bool(*b),
        JsonValue::Int(i) => serde_json::Value::from(*i),
        JsonValue::UInt(u) => serde_json::Value::from(*u),
        JsonValue::Str(s) => serde_json::Value::String(s.clone()),
        JsonValue::Array(items) => serde_json::Value::Array(items.iter().map(serde_value_of).collect()),
        JsonValue::Object(members) => serde_json::Value::Object(members.iter().map(|m| (m.key.clone(), serde_value_of(&m.value))).collect()),
    }
}

/// `serde_json::Value::to_string` (its `Display`): the compact JSON text of
/// the value.  Integers are written in decimal, strings with `serde_json`'s
/// escapes, and an object's members in key order, which for a well-formed
/// value is the order they are listed in.
#[verifier::external_body]
pub(crate) fn json_value_text(v: &JsonValue) -> (r: String)
    requires
        json_wf(*v),
    ensures
        r@ == json_text(*v),
{
    serde_value_of(v).to_string()
}

} // verus!
