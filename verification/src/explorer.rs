//! Data explorer: query classification, safe query building, identifier
//! validation, size display and the catalogue of query templates.
//!
//! Reading directories and talking to the database happen around this
//! module; the decisions and texts are made here.
use vstd::prelude::*;
use vstd::std_specs::hash::DefaultHasherAdditionalSpecFns;
use std::collections::hash_map::DefaultHasher;

use crate::errors::ServiceError;
use crate::text::{
    char_is_alphanumeric, char_is_numeric, concat, contains, contains_exec, decimal, from_chars,
    hex_lower, lemma_hex_lower_value, opt_view, own, push_char, starts_with, starts_with_exec, str_to_lowercase, str_to_uppercase,
    str_trim, text_eq, to_chars, trim, trim_end_char, trim_end_char_chars, u64_to_decimal,
    u64_to_hex, unicode_alphanumeric, unicode_lower, unicode_numeric, unicode_upper, ascii_alnum,
    ascii_digit, ascii_lower_char, ascii_upper_char, is_ascii_char, is_ascii_text, lemma_trim_ascii,
    lemma_trim_map, lemma_trim_surrounding, unicode_white_space,
};

verus! {

broadcast use vstd::string::group_string_axioms;

/// Kind of database found by discovery.
#[derive(Debug, Clone, Copy, PartialEq, Eq, Structural)]
pub enum DatabaseType {
    Sqlite,
    Tantivy,
}

/// Availability of a database.
#[derive(Debug, Clone, Copy, PartialEq, Eq, Structural)]
pub enum DatabaseStatus {
    Available,
    Locked,
    Scanning,
    Error,
}

/// Type of an SQL statement, judged by its first keyword.
#[derive(Debug, Clone, Copy, PartialEq, Eq, Structural)]
pub enum QueryType {
    Select,
    Insert,
    Update,
    Delete,
    Create,
    Drop,
    Alter,
    Other,
}

/// Kind of a data modification.
#[derive(Debug, Clone, Copy, PartialEq, Eq, Structural)]
pub enum DataOperation {
    Insert,
    Update,
    Delete,
}

/// Parameter of a query template.
#[derive(Debug, Clone)]
pub struct TemplateParameter {
    pub name: String,
    pub description: String,
    pub data_type: String,
    pub default_value: Option<String>,
}

/// A pre-built query.
#[derive(Debug, Clone)]
pub struct QueryTemplate {
    pub id: String,
    pub name: String,
    pub description: String,
    pub query: String,
    pub database_type: DatabaseType,
    pub category: String,
    pub parameters: Vec<TemplateParameter>,
}

/// Mathematical view of a template parameter.
pub struct ParameterView {
    pub name: Seq<char>,
    pub description: Seq<char>,
    pub data_type: Seq<char>,
    pub default_value: Option<Seq<char>>,
}

/// Mathematical view of a query template.
pub struct TemplateView {
    pub id: Seq<char>,
    pub name: Seq<char>,
    pub description: Seq<char>,
    pub query: Seq<char>,
    pub database_type: DatabaseType,
    pub category: Seq<char>,
    pub parameters: Seq<ParameterView>,
}

impl View for TemplateParameter {
    type V = ParameterView;

    open spec fn view(&self) -> ParameterView {
        ParameterView {
            name: self.name@,
            description: self.description@,
            data_type: self.data_type@,
            default_value: opt_view(self.default_value),
        }
    }
}

impl View for QueryTemplate {
    type V = TemplateView;

    open spec fn view(&self) -> TemplateView {
        TemplateView {
            id: self.id@,
            name: self.name@,
            description: self.description@,
            query: self.query@,
            database_type: self.database_type,
            category: self.category@,
            parameters: self.parameters@.map_values(|p: TemplateParameter| p@),
        }
    }
}

// ---------------------------------------------------------------------------
// Query classification
// ---------------------------------------------------------------------------

/// Type of a statement whose text is already trimmed and uppercased.
pub open spec fn classify_normalized(n: Seq<char>) -> QueryType {
    if starts_with(n, "SELECT"@) || starts_with(n, "WITH"@) {
        QueryType::Select
    } else if starts_with(n, "INSERT"@) {
        QueryType::Insert
    } else if starts_with(n, "UPDATE"@) {
        QueryType::Update
    } else if starts_with(n, "DELETE"@) {
        QueryType::Delete
    } else if starts_with(n, "CREATE"@) {
        QueryType::Create
    } else if starts_with(n, "DROP"@) {
        QueryType::Drop
    } else if starts_with(n, "ALTER"@) {
        QueryType::Alter
    } else {
        QueryType::Other
    }
}

/// A statement is judged by its leading keyword: `SELECT` and `WITH` read,
/// `INSERT`, `UPDATE`, `DELETE`, `CREATE`, `DROP` and `ALTER` give their
/// own types, and a statement that starts with none of them is `Other`.
pub proof fn law_leading_keywords(n: Seq<char>)
    ensures
        starts_with(n, "SELECT"@) ==> classify_normalized(n) == QueryType::Select,
        starts_with(n, "WITH"@) ==> classify_normalized(n) == QueryType::Select,
        classify_normalized(n) == QueryType::Insert ==> starts_with(n, "INSERT"@),
        classify_normalized(n) == QueryType::Update ==> starts_with(n, "UPDATE"@),
        classify_normalized(n) == QueryType::Delete ==> starts_with(n, "DELETE"@),
        classify_normalized(n) == QueryType::Create ==> starts_with(n, "CREATE"@),
        classify_normalized(n) == QueryType::Drop ==> starts_with(n, "DROP"@),
        classify_normalized(n) == QueryType::Alter ==> starts_with(n, "ALTER"@),
        classify_normalized(n) == QueryType::Select ==> starts_with(n, "SELECT"@) || starts_with(n, "WITH"@),
        !starts_with(n, "SELECT"@) && !starts_with(n, "WITH"@) && !starts_with(n, "INSERT"@)
            && !starts_with(n, "UPDATE"@) && !starts_with(n, "DELETE"@) && !starts_with(n, "CREATE"@)
            && !starts_with(n, "DROP"@) && !starts_with(n, "ALTER"@) ==> classify_normalized(n)
            == QueryType::Other,
{
}

/// Safe mode blocks exactly deletions, drops and updates; reads, inserts,
/// creations, alterations and other statements pass.
pub proof fn law_destructive_types(t: QueryType)
    ensures
        is_destructive(t) <==> (t == QueryType::Delete || t == QueryType::Drop || t == QueryType::Update),
        t == QueryType::Select ==> !is_destructive(t),
        t == QueryType::Insert ==> !is_destructive(t),
        t == QueryType::Create ==> !is_destructive(t),
        t == QueryType::Alter ==> !is_destructive(t),
        t == QueryType::Other ==> !is_destructive(t),
{
}

/// Type of a statement: the text is trimmed, uppercased and judged by its
/// leading keyword.
pub open spec fn query_type_of(q: Seq<char>) -> QueryType {
    classify_normalized(unicode_upper(trim(q)))
}

/// Type of a statement whose text is already trimmed and uppercased.
pub fn classify_normalized_query(n: &Vec<char>) -> (r: QueryType)
    ensures
        r == classify_normalized(n@),
{
    if starts_with_exec(n, &to_chars("SELECT")) || starts_with_exec(n, &to_chars("WITH")) {
        QueryType::Select
    } else if starts_with_exec(n, &to_chars("INSERT")) {
        QueryType::Insert
    } else if starts_with_exec(n, &to_chars("UPDATE")) {
        QueryType::Update
    } else if starts_with_exec(n, &to_chars("DELETE")) {
        QueryType::Delete
    } else if starts_with_exec(n, &to_chars("CREATE")) {
        QueryType::Create
    } else if starts_with_exec(n, &to_chars("DROP")) {
        QueryType::Drop
    } else if starts_with_exec(n, &to_chars("ALTER")) {
        QueryType::Alter
    } else {
        QueryType::Other
    }
}

/// Type of an ASCII statement: trimmed, its letters uppercased, and judged
/// by its leading keyword.
pub open spec fn ascii_query_type(q: Seq<char>) -> QueryType {
    classify_normalized(trim(q).map_values(|c: char| ascii_upper_char(c)))
}

/// Classify an SQL statement by its leading keyword.
pub fn classify_query(query: &str) -> (r: QueryType)
    ensures
        r == query_type_of(query@),
        is_ascii_text(query@) ==> r == ascii_query_type(query@),
{
    let trimmed = str_trim(query);
    proof {
        if is_ascii_text(query@) {
            lemma_trim_ascii(query@);
        }
    }
    let upper = str_to_uppercase(trimmed.as_str());
    classify_normalized_query(&to_chars(upper.as_str()))
}

/// The type of a statement ignores the case of its letters and the white
/// space around it.
pub proof fn law_classification_ignores_case_and_spacing(q: Seq<char>, pre: Seq<char>, post: Seq<char>)
    requires
        forall|i: int| 0 <= i < pre.len() ==> unicode_white_space(#[trigger] pre[i]),
        forall|i: int| 0 <= i < post.len() ==> unicode_white_space(#[trigger] post[i]),
    ensures
        ascii_query_type(q.map_values(|c: char| ascii_lower_char(c))) == ascii_query_type(q),
        ascii_query_type(q.map_values(|c: char| ascii_upper_char(c))) == ascii_query_type(q),
        ascii_query_type(pre + q + post) == ascii_query_type(q),
{
    let lo = |c: char| ascii_lower_char(c);
    let up = |c: char| ascii_upper_char(c);
    lemma_trim_map(q, lo);
    lemma_trim_map(q, up);
    let t = trim(q);
    assert(t.map_values(lo).map_values(up) =~= t.map_values(up));
    assert(t.map_values(up).map_values(up) =~= t.map_values(up));
    lemma_trim_surrounding(q, pre, post);
}

/// Whether a query type modifies or removes data in a way that safe mode
/// blocks.
pub open spec fn is_destructive(t: QueryType) -> bool {
    t == QueryType::Delete || t == QueryType::Drop || t == QueryType::Update
}

/// Text of the statement that is run: a `SELECT` loses its trailing
/// semicolons and gains `LIMIT`/`OFFSET` clauses unless its lowercase text
/// already holds them; any other statement runs as written.
pub open spec fn paged_query_text(q: Seq<char>, t: QueryType, limit: Option<u32>, offset: Option<u32>) -> Seq<char> {
    if t == QueryType::Select {
        let base = trim_end_char(q, ';');
        let lower = unicode_lower(base);
        let with_limit = if !contains(lower, " limit "@) && limit is Some {
            base + " LIMIT "@ + decimal(limit->0 as nat)
        } else {
            base
        };
        if !contains(lower, " offset "@) && offset is Some {
            with_limit + " OFFSET "@ + decimal(offset->0 as nat)
        } else {
            with_limit
        }
    } else {
        q
    }
}

/// The message that refuses a destructive statement in safe mode.
pub open spec fn safe_mode_message() -> Seq<char> {
    "Destructive queries are blocked in safe mode. Disable safe mode to execute this query."@
}

/// The statement to run for a query request, with its type.  In safe mode
/// `DELETE`, `DROP` and `UPDATE` statements are refused with a validation
/// error and nothing is run.
pub fn plan_query(query: &str, limit: Option<u32>, offset: Option<u32>, safe_mode: bool) -> (r:
    Result<(QueryType, String), ServiceError>)
    ensures
        safe_mode && is_destructive(query_type_of(query@)) ==> (r matches Err(
            ServiceError::Validation(m),
        ) && m@ == safe_mode_message()),
        !(safe_mode && is_destructive(query_type_of(query@))) ==> (r matches Ok((t, text)) && t
            == query_type_of(query@) && text@ == paged_query_text(query@, t, limit, offset)),
{
    let query_type = classify_query(query);
    if safe_mode && (query_type == QueryType::Delete || query_type == QueryType::Drop
        || query_type == QueryType::Update) {
        return Err(
            ServiceError::Validation(
                own(
                    "Destructive queries are blocked in safe mode. Disable safe mode to execute this query.",
                ),
            ),
        );
    }
    if query_type == QueryType::Select {
        let base = trim_end_char_chars(&to_chars(query), ';');
        let mut q = from_chars(&base);
        let lower = to_chars(str_to_lowercase(q.as_str()).as_str());
        let has_limit = contains_exec(&lower, &to_chars(" limit "));
        let has_offset = contains_exec(&lower, &to_chars(" offset "));
        if !has_limit {
            if let Some(l) = limit {
                q.append(" LIMIT ");
                let d = u64_to_decimal(l as u64);
                q.append(d.as_str());
            }
        }
        if !has_offset {
            if let Some(o) = offset {
                q.append(" OFFSET ");
                let d = u64_to_decimal(o as u64);
                q.append(d.as_str());
            }
        }
        Ok((query_type, q))
    } else {
        Ok((query_type, own(query)))
    }
}

// ---------------------------------------------------------------------------
// Identifiers and table queries
// ---------------------------------------------------------------------------

/// A table or column name that can be quoted safely: not empty, made of
/// alphanumeric characters and underscores, and not starting with a numeric
/// character.
pub open spec fn valid_identifier(s: Seq<char>) -> bool {
    &&& s.len() > 0
    &&& forall|i: int| 0 <= i < s.len() ==> unicode_alphanumeric(#[trigger] s[i]) || s[i] == '_'
    &&& !unicode_numeric(s[0])
}

/// Whether every ASCII character of a name is a letter, a digit or an
/// underscore, no character is white space, and the name does not start
/// with an ASCII digit.
pub open spec fn plain_identifier(s: Seq<char>) -> bool {
    &&& forall|i: int|
        0 <= i < s.len() && is_ascii_char(#[trigger] s[i]) ==> ascii_alnum(s[i]) || s[i] == '_'
    &&& forall|i: int| 0 <= i < s.len() ==> !unicode_white_space(#[trigger] s[i])
    &&& s.len() > 0 ==> !ascii_digit(s[0])
}

/// Whether a name is a valid identifier.
pub fn is_valid_identifier(name: &str) -> (r: bool)
    ensures
        r == valid_identifier(name@),
        r ==> plain_identifier(name@),
{
    let cs = to_chars(name);
    if cs.len() == 0 {
        return false;
    }
    let mut i: usize = 0;
    while i < cs.len()
        invariant
            i <= cs.len(),
            cs@ == name@,
            forall|j: int| 0 <= j < i ==> unicode_alphanumeric(#[trigger] cs@[j]) || cs@[j] == '_',
            forall|j: int|
                0 <= j < i && is_ascii_char(#[trigger] cs@[j]) ==> ascii_alnum(cs@[j]) || cs@[j] == '_',
            forall|j: int| 0 <= j < i ==> !unicode_white_space(#[trigger] cs@[j]),
        decreases cs.len() - i,
    {
        let c = cs[i];
        if !(char_is_alphanumeric(c) || c == '_') {
            return false;
        }
        i = i + 1;
    }
    !char_is_numeric(cs[0])
}

/// A valid identifier holds no quote, apostrophe, backquote, semicolon,
/// hyphen or white space, so it cannot leave the double quotes that table
/// statements put around it.
pub proof fn law_valid_identifier_stays_quoted(s: Seq<char>)
    requires
        plain_identifier(s),
    ensures
        forall|i: int|
            0 <= i < s.len() ==> {
                &&& #[trigger] s[i] != '"'
                &&& s[i] != '\''
                &&& s[i] != '`'
                &&& s[i] != ';'
                &&& s[i] != '-'
                &&& !unicode_white_space(s[i])
            },
{
    assert forall|i: int| 0 <= i < s.len() implies {
        &&& #[trigger] s[i] != '"'
        &&& s[i] != '\''
        &&& s[i] != '`'
        &&& s[i] != ';'
        &&& s[i] != '-'
        &&& !unicode_white_space(s[i])
    } by {
        if is_ascii_char(s[i]) {
            assert(ascii_alnum(s[i]) || s[i] == '_');
        }
    }
}

/// Statement that reads a whole table, optionally ordered by a column.
pub open spec fn table_query_text(table: Seq<char>, order: Option<(Seq<char>, Seq<char>)>) -> Seq<char> {
    "SELECT * FROM \""@ + table + "\""@ + match order {
        Some((col, dir)) => " ORDER BY \""@ + col + "\" "@ + dir,
        None => Seq::empty(),
    }
}

/// Uppercased sort direction, `ASC` by default.
pub open spec fn order_direction(order_dir: Option<Seq<char>>) -> Seq<char> {
    unicode_upper(
        match order_dir {
            Some(d) => d,
            None => "ASC"@,
        },
    )
}

/// Statement for browsing a table, after checking the table name, the
/// column name and the direction.  The error texts are those shown to users.
pub fn table_data_query(table: &str, order_by: Option<&str>, order_dir: Option<&str>) -> (r:
    Result<String, ServiceError>)
    ensures
        !valid_identifier(table@) ==> (r matches Err(ServiceError::Validation(m)) && m@
            == "Invalid table name: "@ + table@),
        valid_identifier(table@) ==> match order_by {
            None => r matches Ok(q) && q@ == table_query_text(table@, None),
            Some(col) => if !valid_identifier(col@) {
                r matches Err(ServiceError::Validation(m)) && m@ == "Invalid column name: "@ + col@
            } else {
                let dir = order_direction(
                    match order_dir {
                        Some(d) => Some(d@),
                        None => None,
                    },
                );
                if dir == "ASC"@ || dir == "DESC"@ {
                    r matches Ok(q) && q@ == table_query_text(table@, Some((col@, dir)))
                } else {
                    r matches Err(ServiceError::Validation(m)) && m@
                        == "Order direction must be ASC or DESC"@
                }
            },
        },
{
    if !is_valid_identifier(table) {
        return Err(ServiceError::Validation(concat("Invalid table name: ", table)));
    }
    let mut q = own("SELECT * FROM \"");
    q.append(table);
    q.append("\"");
    match order_by {
        None => Ok(q),
        Some(col) => {
            if !is_valid_identifier(col) {
                return Err(ServiceError::Validation(concat("Invalid column name: ", col)));
            }
            let dir_in: &str = match order_dir {
                Some(d) => d,
                None => "ASC",
            };
            let dir = str_to_uppercase(dir_in);
            if !text_eq(dir.as_str(), "ASC") && !text_eq(dir.as_str(), "DESC") {
                return Err(ServiceError::Validation(own("Order direction must be ASC or DESC")));
            }
            q.append(" ORDER BY \"");
            q.append(col);
            q.append("\" ");
            q.append(dir.as_str());
            Ok(q)
        },
    }
}

// ---------------------------------------------------------------------------
// Sizes for display
// ---------------------------------------------------------------------------

/// `2^e`.
pub open spec fn two_pow(e: nat) -> nat
    decreases e,
{
    if e == 0 {
        1
    } else {
        2 * two_pow((e - 1) as nat)
    }
}

/// The largest integer that a 64-bit float holds exactly on every step:
/// `2^53`.
pub open spec fn f64_exact_limit() -> nat {
    9007199254740992
}

/// Number of low bits that a 64-bit float drops from `x`.
pub open spec fn f64_dropped_bits(x: nat) -> nat
    decreases x,
{
    if x < f64_exact_limit() {
        0
    } else {
        1 + f64_dropped_bits(x / 2)
    }
}

/// `a / b` rounded to the nearest integer, ties to even.
pub open spec fn div_round_half_even(a: nat, b: nat) -> nat {
    let q = a / b;
    let r = a % b;
    if 2 * r > b || (2 * r == b && q % 2 == 1) {
        q + 1
    } else {
        q
    }
}

/// The value of `x as f64`: `x` rounded to 53 significant bits, ties to
/// even.
pub open spec fn f64_of(x: nat) -> nat {
    let m = two_pow(f64_dropped_bits(x));
    div_round_half_even(x, m) * m
}

/// `x / unit` printed with one decimal, as `format!("{:.1}", x as f64 /
/// unit as f64)` prints it for a power-of-two unit.
pub open spec fn one_decimal_text(x: nat, unit: nat) -> Seq<char> {
    let tenths = div_round_half_even(f64_of(x) * 10, unit);
    decimal(tenths / 10) + seq!['.'] + decimal(tenths % 10)
}

/// Human-readable size: bytes below 1 KiB, otherwise KB, MB or GB (powers of
/// 1024) with one decimal.
pub open spec fn size_text(bytes: nat) -> Seq<char> {
    if bytes >= 1073741824 {
        one_decimal_text(bytes, 1073741824) + " GB"@
    } else if bytes >= 1048576 {
        one_decimal_text(bytes, 1048576) + " MB"@
    } else if bytes >= 1024 {
        one_decimal_text(bytes, 1024) + " KB"@
    } else {
        decimal(bytes) + " bytes"@
    }
}

/// `x as f64` as an exact integer.
fn f64_value(x: u64) -> (r: u128)
    ensures
        r as nat == f64_of(x as nat),
        r <= 18446744073709551616u128,
{
    let mut t: u64 = x;
    let mut e: u64 = 0;
    let mut m: u128 = 1;
    while t >= 9007199254740992u64
        invariant
            f64_dropped_bits(x as nat) == e + f64_dropped_bits(t as nat),
            m as nat == two_pow(e as nat),
            e <= 11,
            x as nat / two_pow(e as nat) == t as nat,
        decreases t,
    {
        proof {
            lemma_two_pow_positive(e as nat);
            assert(two_pow((e + 1) as nat) == 2 * two_pow(e as nat));
            vstd::arithmetic::div_mod::lemma_div_denominator(
                x as int,
                two_pow(e as nat) as int,
                2,
            );
            if e >= 11 {
                reveal_with_fuel(two_pow, 12);
                assert(two_pow(11) == 2048);
                vstd::arithmetic::div_mod::lemma_div_is_ordered(
                    x as int,
                    18446744073709551615,
                    2048,
                );
                assert(false);
            }
            lemma_two_pow_monotone(e as nat, 11);
            assert(two_pow(11) == 2048) by {
                reveal_with_fuel(two_pow, 12);
            }
            assert(m <= 2048);
        }
        t = t / 2;
        e = e + 1;
        m = m * 2;
    }
    proof {
        assert(f64_dropped_bits(t as nat) == 0);
    }
    proof {
        lemma_two_pow_monotone(e as nat, 11);
        reveal_with_fuel(two_pow, 12);
        assert(m <= 2048);
        lemma_two_pow_positive(e as nat);
    }
    let q: u128 = (x as u128) / m;
    let r: u128 = (x as u128) % m;
    assert(q == t);
    let q2: u128 = if 2 * r > m || (2 * r == m && q % 2 == 1) {
        q + 1
    } else {
        q
    };
    proof {
        reveal_with_fuel(two_pow, 12);
        assert(two_pow(11) == 2048);
        lemma_two_pow_positive(e as nat);
        vstd::arithmetic::div_mod::lemma_fundamental_div_mod(x as int, m as int);
        assert(q * m + r == x);
        assert(q2 * m <= 18446744073709551616) by (nonlinear_arith)
            requires
                q2 <= 9007199254740992,
                m <= 2048,
        ;
    }
    q2 * m
}

proof fn lemma_two_pow_positive(a: nat)
    ensures
        two_pow(a) >= 1,
    decreases a,
{
    if a > 0 {
        lemma_two_pow_positive((a - 1) as nat);
    }
}

proof fn lemma_two_pow_monotone(a: nat, b: nat)
    requires
        a <= b,
    ensures
        two_pow(a) <= two_pow(b),
    decreases b,
{
    if a < b {
        lemma_two_pow_monotone(a, (b - 1) as nat);
    }
}

/// `x / unit` with one decimal, for a unit of at least 1024.
fn one_decimal(x: u64, unit: u64) -> (r: String)
    requires
        1024 <= unit <= 1073741824,
    ensures
        r@ == one_decimal_text(x as nat, unit as nat),
{
    let v = f64_value(x);
    let num: u128 = v * 10;
    let q: u128 = num / (unit as u128);
    let rem: u128 = num % (unit as u128);
    let tenths: u128 = if 2 * rem > unit as u128 || (2 * rem == unit as u128 && q % 2 == 1) {
        q + 1
    } else {
        q
    };
    proof {
        assert(q <= num / 1024) by {
            vstd::arithmetic::div_mod::lemma_div_is_ordered_by_denominator(
                num as int,
                1024,
                unit as int,
            );
        }
        assert(num / 1024 <= 184467440737095516160int / 1024) by {
            vstd::arithmetic::div_mod::lemma_div_is_ordered(
                num as int,
                184467440737095516160,
                1024,
            );
        }
    }
    let whole: u64 = (tenths / 10) as u64;
    let frac: u64 = (tenths % 10) as u64;
    let mut s = u64_to_decimal(whole);
    push_char(&mut s, '.');
    let f = u64_to_decimal(frac);
    s.append(f.as_str());
    s
}

/// Format a size in bytes for display.
pub fn format_size(bytes: u64) -> (r: String)
    ensures
        r@ == size_text(bytes as nat),
{
    if bytes >= 1073741824 {
        let s = one_decimal(bytes, 1073741824);
        concat(s.as_str(), " GB")
    } else if bytes >= 1048576 {
        let s = one_decimal(bytes, 1048576);
        concat(s.as_str(), " MB")
    } else if bytes >= 1024 {
        let s = one_decimal(bytes, 1024);
        concat(s.as_str(), " KB")
    } else {
        let s = u64_to_decimal(bytes);
        concat(s.as_str(), " bytes")
    }
}

// ---------------------------------------------------------------------------
// Database identifiers
// ---------------------------------------------------------------------------

/// What hashing a string writes into a hasher: the byte strings that
/// `<str as Hash>::hash` hands it, which depend on the text alone.
pub uninterp spec fn str_hash_writes(s: Seq<char>) -> Seq<Seq<u8>>;

/// `<str as Hash>::hash` into a `DefaultHasher`: the hasher takes the
/// writes that hashing the text makes (in the standard library's source,
/// its UTF-8 bytes and a closing `0xff`); which byte strings they are is
/// given a name.
#[verifier::external_body]
fn hash_str(s: &str, h: &mut DefaultHasher)
    ensures
        final(h)@ == old(h)@ + str_hash_writes(s@),
{
    std::hash::Hash::hash(s, h)
}

/// The hash of a string with a freshly created `DefaultHasher`.
pub open spec fn default_hash(s: Seq<char>) -> u64 {
    DefaultHasher::spec_finish(str_hash_writes(s))
}

/// Hash of a string with a freshly created `DefaultHasher`
/// (`DefaultHasher::new`, `Hash::hash`, `Hasher::finish`).
fn hash_text(s: &str) -> (r: u64)
    ensures
        r == default_hash(s@),
{
    let mut h = DefaultHasher::new();
    hash_str(s, &mut h);
    assert(Seq::<Seq<u8>>::empty() + str_hash_writes(s@) =~= str_hash_writes(s@));
    std::hash::Hasher::finish(&h)
}

/// Identifier of a database: `db_` followed by the lowercase hexadecimal
/// hash of its path.
pub open spec fn db_id_text(path: Seq<char>) -> Seq<char> {
    "db_"@ + hex_lower(default_hash(path) as nat)
}

/// Databases whose paths hash differently get different identifiers.
pub proof fn law_db_ids_follow_hashes(p1: Seq<char>, p2: Seq<char>)
    requires
        default_hash(p1) != default_hash(p2),
    ensures
        db_id_text(p1) != db_id_text(p2),
{
    let a = db_id_text(p1);
    let b = db_id_text(p2);
    lemma_hex_lower_value(default_hash(p1) as nat);
    lemma_hex_lower_value(default_hash(p2) as nat);
    if a == b {
        reveal_strlit("db_");
        assert(a.subrange(3, a.len() as int) =~= hex_lower(default_hash(p1) as nat));
        assert(b.subrange(3, b.len() as int) =~= hex_lower(default_hash(p2) as nat));
    }
}

/// Identifier of a database, derived from its path (given as text).
pub fn generate_db_id(path: &str) -> (r: String)
    ensures
        r@ == db_id_text(path@),
{
    let h = hash_text(path);
    let x = u64_to_hex(h);
    concat("db_", x.as_str())
}

// ---------------------------------------------------------------------------
// Query templates
// ---------------------------------------------------------------------------

/// View of a template built from literal texts.
pub open spec fn template_view(
    id: Seq<char>,
    name: Seq<char>,
    description: Seq<char>,
    query: Seq<char>,
    category: Seq<char>,
    parameters: Seq<ParameterView>,
) -> TemplateView {
    TemplateView {
        id,
        name,
        description,
        query,
        database_type: DatabaseType::Sqlite,
        category,
        parameters,
    }
}

/// The catalogue of pre-built queries, in the order in which it is offered.
pub open spec fn builtin_templates() -> Seq<TemplateView> {
    seq![
        template_view(
            "recent_entries"@,
            "Recent Entries"@,
            "Get the most recently created entries"@,
            "SELECT * FROM entries ORDER BY created_at DESC LIMIT 100"@,
            "Entries"@,
            Seq::empty(),
        ),
        template_view(
            "orphaned_pages"@,
            "Orphaned Pages"@,
            "Find pages without a corresponding entry"@,
            "SELECT * FROM pages WHERE source_id NOT IN (SELECT id FROM entries)"@,
            "Maintenance"@,
            Seq::empty(),
        ),
        template_view(
            "large_documents"@,
            "Large Documents"@,
            "Find entries with large content"@,
            "SELECT id, title, LENGTH(content) as content_length FROM entries WHERE LENGTH(content) > {{min_size}} ORDER BY content_length DESC"@,
            "Analysis"@,
            seq![
                ParameterView {
                    name: "min_size"@,
                    description: "Minimum content size in characters"@,
                    data_type: "integer"@,
                    default_value: Some("50000"@),
                },
            ],
        ),
        template_view(
            "entries_by_domain"@,
            "Entries by Domain"@,
            "Get all entries from a specific source domain"@,
            "SELECT * FROM entries WHERE source_domain = '{{domain}}' ORDER BY created_at DESC"@,
            "Entries"@,
            seq![
                ParameterView {
                    name: "domain"@,
                    description: "Source domain to filter by"@,
                    data_type: "string"@,
                    default_value: None,
                },
            ],
        ),
        template_view(
            "domain_stats"@,
            "Domain Statistics"@,
            "Count entries per source domain"@,
            "SELECT source_domain, COUNT(*) as count, SUM(LENGTH(content)) as total_content_size FROM entries GROUP BY source_domain ORDER BY count DESC"@,
            "Analysis"@,
            Seq::empty(),
        ),
        template_view(
            "recent_jobs"@,
            "Recent Jobs"@,
            "Get recently completed indexing jobs"@,
            "SELECT job_id, job_type, status, items_processed, chunks_created, duration_ms, created_at FROM jobs ORDER BY created_at DESC LIMIT 50"@,
            "Jobs"@,
            Seq::empty(),
        ),
        template_view(
            "failed_jobs"@,
            "Failed Jobs"@,
            "Get jobs that failed or had errors"@,
            "SELECT job_id, job_type, error_count, errors, created_at FROM jobs WHERE status = 'failed' OR error_count > 0 ORDER BY created_at DESC"@,
            "Jobs"@,
            Seq::empty(),
        ),
        template_view(
            "project_issues"@,
            "Project Issues"@,
            "List all issues for a project"@,
            "SELECT i.*, p.name as project_name FROM issues i JOIN projects p ON i.project_id = p.id WHERE p.slug = '{{project_slug}}' ORDER BY i.number DESC"@,
            "Projects"@,
            seq![
                ParameterView {
                    name: "project_slug"@,
                    description: "Project slug to filter by"@,
                    data_type: "string"@,
                    default_value: None,
                },
            ],
        ),
        template_view(
            "storage_analysis"@,
            "Storage Analysis"@,
            "Analyze content storage by type"@,
            "\nSELECT\n    entry_type,\n    COUNT(*) as entry_count,\n    SUM(LENGTH(content)) as total_content_bytes,\n    AVG(LENGTH(content)) as avg_content_bytes\nFROM entries\nGROUP BY entry_type\nORDER BY total_content_bytes DESC\n"@,
            "Analysis"@,
            Seq::empty(),
        ),
        template_view(
            "linked_entries"@,
            "Linked Entries"@,
            "Find entries linked to projects"@,
            "\nSELECT\n    e.id, e.title, e.entry_type,\n    p.name as project_name,\n    pe.relevance, pe.notes\nFROM project_entries pe\nJOIN entries e ON pe.entry_id = e.id\nJOIN projects p ON pe.project_id = p.id\nORDER BY pe.linked_at DESC\n"@,
            "Projects"@,
            Seq::empty(),
        ),
    ]
}

/// A template on the SQLite database.
fn sqlite_template(
    id: &str,
    name: &str,
    description: &str,
    query: &str,
    category: &str,
    parameters: Vec<TemplateParameter>,
) -> (r: QueryTemplate)
    ensures
        r@ == template_view(
            id@,
            name@,
            description@,
            query@,
            category@,
            parameters@.map_values(|p: TemplateParameter| p@),
        ),
{
    QueryTemplate {
        id: own(id),
        name: own(name),
        description: own(description),
        query: own(query),
        database_type: DatabaseType::Sqlite,
        category: own(category),
        parameters,
    }
}

/// An empty parameter list.
fn no_parameters() -> (r: Vec<TemplateParameter>)
    ensures
        r@.map_values(|p: TemplateParameter| p@) =~= Seq::<ParameterView>::empty(),
{
    Vec::new()
}

/// A single template parameter.
fn one_parameter(name: &str, description: &str, data_type: &str, default_value: Option<&str>) -> (r:
    Vec<TemplateParameter>)
    ensures
        r@.map_values(|p: TemplateParameter| p@) =~= seq![
            ParameterView {
                name: name@,
                description: description@,
                data_type: data_type@,
                default_value: match default_value {
                    Some(d) => Some(d@),
                    None => None,
                },
            },
        ],
{
    let p = TemplateParameter {
        name: own(name),
        description: own(description),
        data_type: own(data_type),
        default_value: match default_value {
            Some(d) => Some(own(d)),
            None => None,
        },
    };
    let mut v: Vec<TemplateParameter> = Vec::new();
    v.push(p);
    v
}

/// The catalogue of pre-built queries offered by the data explorer.
pub fn get_query_templates() -> (r: Vec<QueryTemplate>)
    ensures
        r@.map_values(|t: QueryTemplate| t@) =~= builtin_templates(),
{
    let mut v: Vec<QueryTemplate> = Vec::new();
    v.push(
        sqlite_template(
            "recent_entries",
            "Recent Entries",
            "Get the most recently created entries",
            "SELECT * FROM entries ORDER BY created_at DESC LIMIT 100",
            "Entries",
            no_parameters(),
        ),
    );
    v.push(
        sqlite_template(
            "orphaned_pages",
            "Orphaned Pages",
            "Find pages without a corresponding entry",
            "SELECT * FROM pages WHERE source_id NOT IN (SELECT id FROM entries)",
            "Maintenance",
            no_parameters(),
        ),
    );
    v.push(
        sqlite_template(
            "large_documents",
            "Large Documents",
            "Find entries with large content",
            "SELECT id, title, LENGTH(content) as content_length FROM entries WHERE LENGTH(content) > {{min_size}} ORDER BY content_length DESC",
            "Analysis",
            one_parameter(
                "min_size",
                "Minimum content size in characters",
                "integer",
                Some("50000"),
            ),
        ),
    );
    v.push(
        sqlite_template(
            "entries_by_domain",
            "Entries by Domain",
            "Get all entries from a specific source domain",
            "SELECT * FROM entries WHERE source_domain = '{{domain}}' ORDER BY created_at DESC",
            "Entries",
            one_parameter("domain", "Source domain to filter by", "string", None),
        ),
    );
    v.push(
        sqlite_template(
            "domain_stats",
            "Domain Statistics",
            "Count entries per source domain",
            "SELECT source_domain, COUNT(*) as count, SUM(LENGTH(content)) as total_content_size FROM entries GROUP BY source_domain ORDER BY count DESC",
            "Analysis",
            no_parameters(),
        ),
    );
    v.push(
        sqlite_template(
            "recent_jobs",
            "Recent Jobs",
            "Get recently completed indexing jobs",
            "SELECT job_id, job_type, status, items_processed, chunks_created, duration_ms, created_at FROM jobs ORDER BY created_at DESC LIMIT 50",
            "Jobs",
            no_parameters(),
        ),
    );
    v.push(
        sqlite_template(
            "failed_jobs",
            "Failed Jobs",
            "Get jobs that failed or had errors",
            "SELECT job_id, job_type, error_count, errors, created_at FROM jobs WHERE status = 'failed' OR error_count > 0 ORDER BY created_at DESC",
            "Jobs",
            no_parameters(),
        ),
    );
    v.push(
        sqlite_template(
            "project_issues",
            "Project Issues",
            "List all issues for a project",
            "SELECT i.*, p.name as project_name FROM issues i JOIN projects p ON i.project_id = p.id WHERE p.slug = '{{project_slug}}' ORDER BY i.number DESC",
            "Projects",
            one_parameter("project_slug", "Project slug to filter by", "string", None),
        ),
    );
    v.push(
        sqlite_template(
            "storage_analysis",
            "Storage Analysis",
            "Analyze content storage by type",
            "\nSELECT\n    entry_type,\n    COUNT(*) as entry_count,\n    SUM(LENGTH(content)) as total_content_bytes,\n    AVG(LENGTH(content)) as avg_content_bytes\nFROM entries\nGROUP BY entry_type\nORDER BY total_content_bytes DESC\n",
            "Analysis",
            no_parameters(),
        ),
    );
    v.push(
        sqlite_template(
            "linked_entries",
            "Linked Entries",
            "Find entries linked to projects",
            "\nSELECT\n    e.id, e.title, e.entry_type,\n    p.name as project_name,\n    pe.relevance, pe.notes\nFROM project_entries pe\nJOIN entries e ON pe.entry_id = e.id\nJOIN projects p ON pe.project_id = p.id\nORDER BY pe.linked_at DESC\n",
            "Projects",
            no_parameters(),
        ),
    );
    v
}

// ---------------------------------------------------------------------------
// Discovered databases and their schema
// ---------------------------------------------------------------------------

/// A discovered database.
#[derive(Debug, Clone)]
pub struct DatabaseInfo {
    pub id: String,
    pub name: String,
    pub db_type: DatabaseType,
    pub path: String,
    pub size_bytes: u64,
    pub size_display: String,
    pub modified: Option<String>,
    pub status: DatabaseStatus,
    pub tables: Option<Vec<String>>,
}

/// Whether a file extension marks an SQLite database: `db`, `sqlite` or
/// `sqlite3`.
pub fn is_sqlite_extension(ext: Option<&str>) -> (r: bool)
    ensures
        r == match ext {
            Some(e) => e@ == "db"@ || e@ == "sqlite"@ || e@ == "sqlite3"@,
            None => false,
        },
{
    match ext {
        Some(e) => text_eq(e, "db") || text_eq(e, "sqlite") || text_eq(e, "sqlite3"),
        None => false,
    }
}

/// The information of a database found at `path` (its file name, or
/// `"unknown"` without one): identified by its path, its size displayed,
/// available, tables read on demand.
pub fn database_info(
    path: &str,
    file_name: Option<&str>,
    db_type: DatabaseType,
    size_bytes: u64,
    modified: Option<String>,
) -> (r: DatabaseInfo)
    ensures
        r.id@ == db_id_text(path@),
        r.name@ == match file_name {
            Some(n) => n@,
            None => "unknown"@,
        },
        r.db_type == db_type,
        r.path@ == path@,
        r.size_bytes == size_bytes,
        r.size_display@ == size_text(size_bytes as nat),
        opt_view(r.modified) == opt_view(modified),
        r.status == DatabaseStatus::Available,
        r.tables is None,
{
    let name = match file_name {
        Some(n) => own(n),
        None => own("unknown"),
    };
    DatabaseInfo {
        id: generate_db_id(path),
        name,
        db_type,
        path: own(path),
        size_bytes,
        size_display: format_size(size_bytes),
        modified,
        status: DatabaseStatus::Available,
        tables: None,
    }
}

/// A column of a table.
#[derive(Debug, Clone)]
pub struct ColumnInfo {
    pub name: String,
    pub data_type: String,
    pub nullable: bool,
    pub primary_key: bool,
    pub default_value: Option<String>,
}

/// A column from its `table_info` row: nullable unless marked not null,
/// part of the primary key when its key position is positive.
pub fn column_info(name: String, data_type: String, notnull: i32, pk: i32, default_value: Option<String>) -> (r: ColumnInfo)
    ensures
        r.name@ == name@,
        r.data_type@ == data_type@,
        r.nullable == (notnull == 0),
        r.primary_key == (pk > 0),
        opt_view(r.default_value) == opt_view(default_value),
{
    ColumnInfo { name, data_type, nullable: notnull == 0, primary_key: pk > 0, default_value }
}

/// An index of a table.
#[derive(Debug, Clone)]
pub struct IndexInfo {
    pub name: String,
    pub columns: Vec<String>,
    pub unique: bool,
}

/// An index from its `index_list` row; indexes that SQLite made itself
/// (named `sqlite_...`) are left out, and columns are not listed.
pub fn index_info(name: String, unique: i32) -> (r: Option<IndexInfo>)
    ensures
        match r {
            Some(ix) => !starts_with(name@, "sqlite_"@) && ix.name@ == name@ && ix.columns@.len()
                == 0 && ix.unique == (unique == 1),
            None => starts_with(name@, "sqlite_"@),
        },
{
    if crate::text::str_starts_with(name.as_str(), "sqlite_") {
        None
    } else {
        Some(IndexInfo { name, columns: Vec::new(), unique: unique == 1 })
    }
}

/// A foreign key of a table.
#[derive(Debug, Clone)]
pub struct ForeignKeyInfo {
    pub column: String,
    pub references_table: String,
    pub references_column: String,
    pub on_delete: Option<String>,
    pub on_update: Option<String>,
}

/// The schema of a table.
#[derive(Debug, Clone)]
pub struct TableSchema {
    pub name: String,
    pub columns: Vec<ColumnInfo>,
    pub row_count: Option<u64>,
    pub indexes: Vec<IndexInfo>,
    pub foreign_keys: Vec<ForeignKeyInfo>,
}

/// The query listing the user tables of a database, by name.
pub fn table_list_query() -> (r: &'static str)
    ensures
        r@ == "SELECT name FROM sqlite_master WHERE type='table' AND name NOT LIKE 'sqlite_%' ORDER BY name"@,
{
    "SELECT name FROM sqlite_master WHERE type='table' AND name NOT LIKE 'sqlite_%' ORDER BY name"
}

/// A pragma query about a table: `PRAGMA <pragma>('<table>')`.
pub open spec fn pragma_query_text(pragma: Seq<char>, table: Seq<char>) -> Seq<char> {
    "PRAGMA "@ + pragma + "('"@ + table + "')"@
}

/// The pragma query about a table.
pub fn pragma_query(pragma: &str, table: &str) -> (r: String)
    ensures
        r@ == pragma_query_text(pragma@, table@),
{
    let a = concat("PRAGMA ", pragma);
    let b = concat(a.as_str(), "('");
    let c = concat(b.as_str(), table);
    concat(c.as_str(), "')")
}

/// The query counting the rows of a table.
pub fn row_count_query(table: &str) -> (r: String)
    ensures
        r@ == "SELECT COUNT(*) as count FROM '"@ + table@ + "'"@,
{
    let a = concat("SELECT COUNT(*) as count FROM '", table);
    concat(a.as_str(), "'")
}

/// A request to run a query.
#[derive(Debug, Clone)]
pub struct QueryRequest {
    pub database_id: String,
    pub query: String,
    pub limit: Option<u32>,
    pub offset: Option<u32>,
    pub safe_mode: Option<bool>,
}

/// Result of a data modification.
#[derive(Debug, Clone)]
pub struct DataModifyResult {
    pub success: bool,
    pub affected_rows: u64,
    pub preview_sql: Option<String>,
    pub execution_time_ms: u64,
    pub message: String,
}

/// A query in the history.
#[derive(Debug, Clone)]
pub struct QueryHistoryEntry {
    pub id: String,
    pub database_id: String,
    pub query: String,
    pub executed_at: String,
    pub execution_time_ms: u64,
    pub row_count: Option<usize>,
    pub success: bool,
    pub error: Option<String>,
}

} // verus!
