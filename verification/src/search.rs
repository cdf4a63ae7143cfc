//! Search filters and their translation for the vector store: the SQL
//! condition with its bound values and placeholder numbering, entry
//! summaries for search answers, and reindex statistics.
use vstd::prelude::*;

use crate::entry::{EntryRecord, EntryView};
use crate::json::strings_in;
use crate::text::{clone_opt, concat, opt_view, own, u64_to_decimal, decimal};

verus! {

broadcast use vstd::string::group_string_axioms;

/// Filters of a knowledge search.
#[derive(Clone, Debug)]
pub struct SearchFilters {
    /// Entry type (e.g. `"document"`, `"article"`, `"pdf"`).
    pub entry_type: Option<String>,
    /// Chunk type (e.g. `"summary"`, `"content"`).
    pub chunk_type: Option<String>,
    pub tag: Option<String>,
    /// Source domain (e.g. `"docs.example.com"`).
    pub source_domain: Option<String>,
}

impl Default for SearchFilters {
    /// No filter at all.
    fn default() -> (r: SearchFilters)
        ensures
            r.entry_type is None,
            r.chunk_type is None,
            r.tag is None,
            r.source_domain is None,
    {
        SearchFilters { entry_type: None, chunk_type: None, tag: None, source_domain: None }
    }
}

impl SearchFilters {
    /// No filter at all.
    pub fn new() -> (r: SearchFilters)
        ensures
            r.entry_type is None,
            r.chunk_type is None,
            r.tag is None,
            r.source_domain is None,
    {
        SearchFilters::default()
    }

    /// The filters with the given entry type.
    pub fn with_entry_type(self, entry_type: &str) -> (r: SearchFilters)
        ensures
            opt_view(r.entry_type) == Some(entry_type@),
            r.chunk_type == self.chunk_type,
            r.tag == self.tag,
            r.source_domain == self.source_domain,
    {
        SearchFilters { entry_type: Some(own(entry_type)), ..self }
    }

    /// The filters with the given chunk type.
    pub fn with_chunk_type(self, chunk_type: &str) -> (r: SearchFilters)
        ensures
            opt_view(r.chunk_type) == Some(chunk_type@),
            r.entry_type == self.entry_type,
            r.tag == self.tag,
            r.source_domain == self.source_domain,
    {
        SearchFilters { chunk_type: Some(own(chunk_type)), ..self }
    }

    /// The filters with the given tag.
    pub fn with_tag(self, tag: &str) -> (r: SearchFilters)
        ensures
            opt_view(r.tag) == Some(tag@),
            r.entry_type == self.entry_type,
            r.chunk_type == self.chunk_type,
            r.source_domain == self.source_domain,
    {
        SearchFilters { tag: Some(own(tag)), ..self }
    }

    /// The filters with the given source domain.
    pub fn with_source_domain(self, domain: &str) -> (r: SearchFilters)
        ensures
            opt_view(r.source_domain) == Some(domain@),
            r.entry_type == self.entry_type,
            r.chunk_type == self.chunk_type,
            r.tag == self.tag,
    {
        SearchFilters { source_domain: Some(own(domain)), ..self }
    }

    /// Whether no filter is set.
    pub fn is_empty(&self) -> (r: bool)
        ensures
            r == (self.entry_type is None && self.chunk_type is None && self.tag is None
                && self.source_domain is None),
    {
        self.entry_type.is_none() && self.chunk_type.is_none() && self.tag.is_none()
            && self.source_domain.is_none()
    }
}

/// Filter of a vector search.
#[derive(Debug)]
pub struct SearchFilter {
    pub entry_type: Option<String>,
    pub chunk_type: Option<String>,
    pub source_domain: Option<String>,
    pub tag: Option<String>,
}

impl SearchFilter {
    /// No filter at all.
    pub fn new() -> (r: SearchFilter)
        ensures
            r.entry_type is None,
            r.chunk_type is None,
            r.source_domain is None,
            r.tag is None,
    {
        SearchFilter { entry_type: None, chunk_type: None, source_domain: None, tag: None }
    }

    /// The filter with the given entry type.
    pub fn with_entry_type(self, entry_type: &str) -> (r: SearchFilter)
        ensures
            opt_view(r.entry_type) == Some(entry_type@),
            r.chunk_type == self.chunk_type,
            r.source_domain == self.source_domain,
            r.tag == self.tag,
    {
        SearchFilter { entry_type: Some(own(entry_type)), ..self }
    }

    /// The filter with the given chunk type.
    pub fn with_chunk_type(self, chunk_type: &str) -> (r: SearchFilter)
        ensures
            opt_view(r.chunk_type) == Some(chunk_type@),
            r.entry_type == self.entry_type,
            r.source_domain == self.source_domain,
            r.tag == self.tag,
    {
        SearchFilter { chunk_type: Some(own(chunk_type)), ..self }
    }

    /// The filter with the given source domain.
    pub fn with_source_domain(self, source_domain: &str) -> (r: SearchFilter)
        ensures
            opt_view(r.source_domain) == Some(source_domain@),
            r.entry_type == self.entry_type,
            r.chunk_type == self.chunk_type,
            r.tag == self.tag,
    {
        SearchFilter { source_domain: Some(own(source_domain)), ..self }
    }

    /// The filter with the given tag.
    pub fn with_tag(self, tag: &str) -> (r: SearchFilter)
        ensures
            opt_view(r.tag) == Some(tag@),
            r.entry_type == self.entry_type,
            r.chunk_type == self.chunk_type,
            r.source_domain == self.source_domain,
    {
        SearchFilter { tag: Some(own(tag)), ..self }
    }
}

/// The conditions of a vector filter, in the order entry type, chunk type,
/// source domain, tag.
pub open spec fn filter_conditions(f: SearchFilter) -> Seq<Seq<char>> {
    (if f.entry_type is Some {
        seq!["m.entry_type = ?"@]
    } else {
        Seq::empty()
    }) + (if f.chunk_type is Some {
        seq!["m.chunk_type = ?"@]
    } else {
        Seq::empty()
    }) + (if f.source_domain is Some {
        seq!["(m.source_domain = ? OR m.source_domain LIKE ?)"@]
    } else {
        Seq::empty()
    }) + (if f.tag is Some {
        seq!["m.tags LIKE ?"@]
    } else {
        Seq::empty()
    })
}

/// The values bound to the conditions of a vector filter: a domain matches
/// itself or any subdomain, a tag matches anywhere in the tag list.
pub open spec fn filter_params(f: SearchFilter) -> Seq<Seq<char>> {
    (match f.entry_type {
        Some(t) => seq![t@],
        None => Seq::empty(),
    }) + (match f.chunk_type {
        Some(t) => seq![t@],
        None => Seq::empty(),
    }) + (match f.source_domain {
        Some(d) => seq![d@, "%."@ + d@],
        None => Seq::empty(),
    }) + (match f.tag {
        Some(t) => seq!["%"@ + t@ + "%"@],
        None => Seq::empty(),
    })
}

/// Texts joined with a separator.
pub open spec fn join_with(items: Seq<Seq<char>>, sep: Seq<char>) -> Seq<char>
    decreases items.len(),
{
    if items.len() == 0 {
        Seq::empty()
    } else if items.len() == 1 {
        items[0]
    } else {
        join_with(items.drop_last(), sep) + sep + items.last()
    }
}

/// Each condition binds exactly the filter's own values, in order: an
/// equality on the entry type or the chunk type binds the value itself, a
/// domain binds itself and then `%.` before it (any subdomain), and a tag
/// binds itself between `%` signs.  `e`, `c` and `d` count the entry-type,
/// chunk-type and domain filters present, so that the chunk-type value
/// comes after the entry-type value, and so on.
pub proof fn law_filter_values_bound_exactly(f: SearchFilter)
    ensures
        ({
            let e: int = if f.entry_type is Some { 1 } else { 0 };
            let c: int = if f.chunk_type is Some { 1 } else { 0 };
            let d: int = if f.source_domain is Some { 1 } else { 0 };
            let t: int = if f.tag is Some { 1 } else { 0 };
            let conds = filter_conditions(f);
            let params = filter_params(f);
            &&& conds.len() == e + c + d + t
            &&& params.len() == e + c + 2 * d + t
            &&& (f.entry_type matches Some(x) ==> conds[0] == "m.entry_type = ?"@ && params[0] == x@)
            &&& (f.chunk_type matches Some(x) ==> conds[e] == "m.chunk_type = ?"@ && params[e] == x@)
            &&& (f.source_domain matches Some(x) ==> conds[e + c]
                == "(m.source_domain = ? OR m.source_domain LIKE ?)"@ && params[e + c] == x@
                && params[e + c + 1] == "%."@ + x@)
            &&& (f.tag matches Some(x) ==> conds[e + c + d] == "m.tags LIKE ?"@ && params[e + c + 2
                * d] == "%"@ + x@ + "%"@)
        }),
{
}

/// Join texts with a separator.
pub fn join_strings(items: &Vec<String>, sep: &str) -> (r: String)
    ensures
        r@ == join_with(items.deep_view(), sep@),
{
    let mut out = String::new();
    let mut i: usize = 0;
    while i < items.len()
        invariant
            i <= items@.len(),
            out@ == join_with(items.deep_view().take(i as int), sep@),
        decreases items.len() - i,
    {
        proof {
            assert(items.deep_view().take(i + 1).drop_last() =~= items.deep_view().take(i as int));
        }
        if i == 0 {
            out = items[i].clone();
        } else {
            let with_sep = concat(out.as_str(), sep);
            out = concat(with_sep.as_str(), items[i].as_str());
        }
        i = i + 1;
    }
    assert(items.deep_view().take(items@.len() as int) =~= items.deep_view());
    out
}

/// The SQL condition of a vector filter (its conditions joined with
/// `AND`), and the values to bind to its placeholders, in order.
pub fn to_sql_clause(f: &SearchFilter) -> (r: (String, Vec<String>))
    ensures
        r.0@ == join_with(filter_conditions(*f), " AND "@),
        r.1.deep_view() == filter_params(*f),
{
    let mut conditions: Vec<String> = Vec::new();
    let mut params: Vec<String> = Vec::new();
    if let Some(et) = &f.entry_type {
        conditions.push(own("m.entry_type = ?"));
        params.push(et.clone());
    }
    if let Some(ct) = &f.chunk_type {
        conditions.push(own("m.chunk_type = ?"));
        params.push(ct.clone());
    }
    if let Some(sd) = &f.source_domain {
        conditions.push(own("(m.source_domain = ? OR m.source_domain LIKE ?)"));
        params.push(sd.clone());
        params.push(concat("%.", sd.as_str()));
    }
    if let Some(tag) = &f.tag {
        conditions.push(own("m.tags LIKE ?"));
        let a = concat("%", tag.as_str());
        params.push(concat(a.as_str(), "%"));
    }
    proof {
        assert(conditions.deep_view() =~= filter_conditions(*f));
        assert(params.deep_view() =~= filter_params(*f));
    }
    let clause = join_strings(&conditions, " AND ");
    (clause, params)
}

/// A clause with its placeholders numbered: each `?` becomes `?` followed
/// by its number, counting from `first`.
pub open spec fn numbered(s: Seq<char>, first: nat) -> Seq<char>
    decreases s.len(),
{
    if s.len() == 0 {
        Seq::empty()
    } else if s[0] == '?' {
        seq!['?'] + decimal(first) + numbered(s.drop_first(), first + 1)
    } else {
        seq![s[0]] + numbered(s.drop_first(), first)
    }
}

/// Number of placeholders in a clause.
pub open spec fn placeholder_count(s: Seq<char>) -> nat
    decreases s.len(),
{
    if s.len() == 0 {
        0
    } else {
        placeholder_count(s.drop_first()) + if s[0] == '?' {
            1nat
        } else {
            0nat
        }
    }
}

proof fn lemma_numbered_split(s: Seq<char>, i: int, first: nat)
    requires
        0 <= i <= s.len(),
    ensures
        numbered(s, first) == numbered(s.take(i), first) + numbered(
            s.skip(i),
            first + placeholder_count(s.take(i)),
        ),
    decreases i,
{
    if i > 0 {
        assert(s.take(i).drop_first() =~= s.drop_first().take(i - 1));
        assert(s.skip(i) =~= s.drop_first().skip(i - 1));
        lemma_numbered_split(s.drop_first(), i - 1, if s[0] == '?' {
            first + 1
        } else {
            first
        });
        if s[0] == '?' {
            assert(numbered(s.take(i), first) =~= seq!['?'] + decimal(first) + numbered(
                s.drop_first().take(i - 1),
                first + 1,
            ));
        } else {
            assert(numbered(s.take(i), first) =~= seq![s[0]] + numbered(s.drop_first().take(i - 1), first));
        }
    } else {
        assert(s.take(0) =~= Seq::<char>::empty());
        assert(s.skip(0) =~= s);
    }
}

proof fn lemma_numbered_last(s: Seq<char>, first: nat)
    requires
        s.len() > 0,
    ensures
        numbered(s, first) == numbered(s.drop_last(), first) + (if s.last() == '?' {
            seq!['?'] + decimal(first + placeholder_count(s.drop_last()))
        } else {
            seq![s.last()]
        }),
        placeholder_count(s) == placeholder_count(s.drop_last()) + if s.last() == '?' {
            1nat
        } else {
            0nat
        },
{
    lemma_numbered_split(s, s.len() - 1, first);
    assert(s.take(s.len() - 1) =~= s.drop_last());
    let t = s.skip(s.len() - 1);
    assert(t.len() == 1 && t[0] == s.last());
    assert(t.drop_first() =~= Seq::<char>::empty());
    lemma_placeholder_split(s, s.len() - 1);
    reveal_with_fuel(numbered, 2);
    reveal_with_fuel(placeholder_count, 2);
}

proof fn lemma_placeholder_split(s: Seq<char>, i: int)
    requires
        0 <= i <= s.len(),
    ensures
        placeholder_count(s) == placeholder_count(s.take(i)) + placeholder_count(s.skip(i)),
    decreases i,
{
    if i > 0 {
        assert(s.take(i).drop_first() =~= s.drop_first().take(i - 1));
        assert(s.skip(i) =~= s.drop_first().skip(i - 1));
        lemma_placeholder_split(s.drop_first(), i - 1);
    } else {
        assert(s.take(0) =~= Seq::<char>::empty());
        assert(s.skip(0) =~= s);
    }
}

proof fn lemma_placeholder_count_le(s: Seq<char>)
    ensures
        placeholder_count(s) <= s.len(),
    decreases s.len(),
{
    if s.len() > 0 {
        lemma_placeholder_count_le(s.drop_first());
    }
}

/// Total number of placeholders in a list of texts.
pub open spec fn placeholders_in(items: Seq<Seq<char>>) -> nat
    decreases items.len(),
{
    if items.len() == 0 {
        0
    } else {
        placeholders_in(items.drop_last()) + placeholder_count(items.last())
    }
}

proof fn lemma_placeholder_concat(a: Seq<char>, b: Seq<char>)
    ensures
        placeholder_count(a + b) == placeholder_count(a) + placeholder_count(b),
{
    lemma_placeholder_split(a + b, a.len() as int);
    assert((a + b).take(a.len() as int) =~= a);
    assert((a + b).skip(a.len() as int) =~= b);
}

proof fn lemma_placeholders_in_concat(a: Seq<Seq<char>>, b: Seq<Seq<char>>)
    ensures
        placeholders_in(a + b) == placeholders_in(a) + placeholders_in(b),
    decreases b.len(),
{
    if b.len() == 0 {
        assert(a + b =~= a);
    } else {
        assert((a + b).drop_last() =~= a + b.drop_last());
        lemma_placeholders_in_concat(a, b.drop_last());
    }
}

/// Joining with a separator free of placeholders keeps the placeholders of
/// the parts.
proof fn lemma_join_placeholders(items: Seq<Seq<char>>, sep: Seq<char>)
    requires
        placeholder_count(sep) == 0,
    ensures
        placeholder_count(join_with(items, sep)) == placeholders_in(items),
    decreases items.len(),
{
    if items.len() == 1 {
        assert(items.drop_last() =~= Seq::<Seq<char>>::empty());
        assert(items.last() == items[0]);
        assert(placeholders_in(items.drop_last()) == 0);
    } else if items.len() > 1 {
        lemma_join_placeholders(items.drop_last(), sep);
        lemma_placeholder_concat(join_with(items.drop_last(), sep), sep);
        lemma_placeholder_concat(join_with(items.drop_last(), sep) + sep, items.last());
    }
}

proof fn lemma_literal_placeholders()
    ensures
        placeholder_count(" AND "@) == 0,
        placeholder_count("m.entry_type = ?"@) == 1,
        placeholder_count("m.chunk_type = ?"@) == 1,
        placeholder_count("(m.source_domain = ? OR m.source_domain LIKE ?)"@) == 2,
        placeholder_count("m.tags LIKE ?"@) == 1,
{
    reveal_strlit(" AND ");
    reveal_strlit("m.entry_type = ?");
    reveal_strlit("m.chunk_type = ?");
    reveal_strlit("(m.source_domain = ? OR m.source_domain LIKE ?)");
    reveal_strlit("m.tags LIKE ?");
    reveal_with_fuel(placeholder_count, 50);
}

/// The conditions of a vector filter hold exactly one placeholder for each
/// bound value, so the clause and its values line up.
pub proof fn law_filter_placeholders_match_values(f: SearchFilter)
    ensures
        placeholder_count(join_with(filter_conditions(f), " AND "@)) == filter_params(f).len(),
{
    lemma_literal_placeholders();
    lemma_join_placeholders(filter_conditions(f), " AND "@);
    let e: Seq<Seq<char>> = if f.entry_type is Some {
        seq!["m.entry_type = ?"@]
    } else {
        Seq::empty()
    };
    let c: Seq<Seq<char>> = if f.chunk_type is Some {
        seq!["m.chunk_type = ?"@]
    } else {
        Seq::empty()
    };
    let d: Seq<Seq<char>> = if f.source_domain is Some {
        seq!["(m.source_domain = ? OR m.source_domain LIKE ?)"@]
    } else {
        Seq::empty()
    };
    let t: Seq<Seq<char>> = if f.tag is Some {
        seq!["m.tags LIKE ?"@]
    } else {
        Seq::empty()
    };
    lemma_placeholders_in_concat(e, c);
    lemma_placeholders_in_concat(e + c, d);
    lemma_placeholders_in_concat(e + c + d, t);
    reveal_with_fuel(placeholders_in, 2);
    assert(filter_conditions(f) == e + c + d + t);
}

/// The filter part of the vector search query: empty without conditions,
/// otherwise `AND` followed by the clause whose placeholders are numbered
/// from 3 (the query vector and the number of neighbours take 1 and 2).
pub open spec fn numbered_filter_clause_spec(clause: Seq<char>) -> Seq<char> {
    if clause.len() == 0 {
        Seq::empty()
    } else {
        "AND "@ + numbered(clause, 3)
    }
}

/// Number the placeholders of a filter clause from 3 and prefix it with
/// `AND`; an empty clause stays empty.
pub fn numbered_filter_clause(clause: &str) -> (r: String)
    requires
        clause@.len() + 3 <= u64::MAX,
    ensures
        r@ == numbered_filter_clause_spec(clause@),
{
    let cs = crate::text::to_chars(clause);
    if cs.len() == 0 {
        return String::new();
    }
    let mut out: Vec<char> = Vec::new();
    let mut next: u64 = 3;
    let mut i: usize = 0;
    while i < cs.len()
        invariant
            i <= cs@.len(),
            cs@ == clause@,
            clause@.len() + 3 <= u64::MAX,
            out@ == numbered(cs@.take(i as int), 3),
            next == 3 + placeholder_count(cs@.take(i as int)),
            placeholder_count(cs@.take(i as int)) <= i,
        decreases cs.len() - i,
    {
        let c = cs[i];
        proof {
            let t = cs@.take(i + 1);
            assert(t.drop_last() =~= cs@.take(i as int));
            assert(t.last() == c);
            lemma_numbered_last(t, 3);
        }
        if c == '?' {
            out.push('?');
            let digits = u64_to_decimal(next);
            let dv = crate::text::to_chars(digits.as_str());
            let ghost before = out@;
            let mut k: usize = 0;
            while k < dv.len()
                invariant
                    k <= dv@.len(),
                    out@ == before + dv@.take(k as int),
                decreases dv.len() - k,
            {
                out.push(dv[k]);
                proof {
                    assert(dv@.take(k + 1) =~= dv@.take(k as int).push(dv[k as int]));
                }
                k = k + 1;
            }
            assert(dv@.take(dv@.len() as int) =~= dv@);
            next = next + 1;
        } else {
            out.push(c);
        }
        i = i + 1;
    }
    assert(cs@.take(cs@.len() as int) =~= cs@);
    let body = crate::text::from_chars(&out);
    concat("AND ", body.as_str())
}

/// Total length of a list of texts.
pub open spec fn total_len(items: Seq<Seq<char>>) -> nat
    decreases items.len(),
{
    if items.len() == 0 {
        0
    } else {
        total_len(items.drop_last()) + items.last().len()
    }
}

proof fn lemma_join_len(items: Seq<Seq<char>>, sep: Seq<char>)
    ensures
        join_with(items, sep).len() <= total_len(items) + items.len() * sep.len(),
    decreases items.len(),
{
    if items.len() == 1 {
        assert(items.drop_last() =~= Seq::<Seq<char>>::empty());
        assert(items.last() == items[0]);
    } else if items.len() > 1 {
        lemma_join_len(items.drop_last(), sep);
        assert((items.len() - 1) * sep.len() + sep.len() == items.len() * sep.len()) by (nonlinear_arith);
    }
}

proof fn lemma_total_len_concat(a: Seq<Seq<char>>, b: Seq<Seq<char>>)
    ensures
        total_len(a + b) == total_len(a) + total_len(b),
    decreases b.len(),
{
    if b.len() == 0 {
        assert(a + b =~= a);
    } else {
        assert((a + b).drop_last() =~= a + b.drop_last());
        lemma_total_len_concat(a, b.drop_last());
    }
}

/// The clause of a vector filter is short: at most 200 characters.
proof fn lemma_filter_clause_short(f: SearchFilter)
    ensures
        join_with(filter_conditions(f), " AND "@).len() <= 200,
{
    reveal_strlit(" AND ");
    reveal_strlit("m.entry_type = ?");
    reveal_strlit("m.chunk_type = ?");
    reveal_strlit("(m.source_domain = ? OR m.source_domain LIKE ?)");
    reveal_strlit("m.tags LIKE ?");
    let e: Seq<Seq<char>> = if f.entry_type is Some {
        seq!["m.entry_type = ?"@]
    } else {
        Seq::empty()
    };
    let c: Seq<Seq<char>> = if f.chunk_type is Some {
        seq!["m.chunk_type = ?"@]
    } else {
        Seq::empty()
    };
    let d: Seq<Seq<char>> = if f.source_domain is Some {
        seq!["(m.source_domain = ? OR m.source_domain LIKE ?)"@]
    } else {
        Seq::empty()
    };
    let t: Seq<Seq<char>> = if f.tag is Some {
        seq!["m.tags LIKE ?"@]
    } else {
        Seq::empty()
    };
    lemma_total_len_concat(e, c);
    lemma_total_len_concat(e + c, d);
    lemma_total_len_concat(e + c + d, t);
    reveal_with_fuel(total_len, 2);
    assert(filter_conditions(f) == e + c + d + t);
    lemma_join_len(filter_conditions(f), " AND "@);
}

/// The start of the vector search statement: the columns of a hit, and the
/// nearest-neighbour match on the query vector (`?1`) with `k` neighbours
/// (`?2`).
pub open spec fn vector_search_head() -> Seq<char> {
    "SELECT\n                m.chunk_id,\n                m.entry_id,\n                m.page_id,\n                m.chunk_index,\n                m.chunk_type,\n                m.text,\n                m.entry_title,\n                m.entry_type,\n                m.source_domain,\n                m.tags,\n                v.distance\n            FROM vec_chunks v\n            JOIN chunk_metadata m ON v.chunk_id = m.chunk_id\n            WHERE v.embedding MATCH ?1\n            AND v.k = ?2\n            "@
}

/// The end of the vector search statement: hits ordered by distance.
pub open spec fn vector_search_tail() -> Seq<char> {
    "\n            ORDER BY v.distance"@
}

/// The vector search statement for a filter, and the filter values to bind
/// after the query vector and the number of neighbours.
pub open spec fn vector_search_spec(filter: Option<SearchFilter>) -> (Seq<char>, Seq<Seq<char>>) {
    match filter {
        Some(f) => (
            vector_search_head() + numbered_filter_clause_spec(join_with(filter_conditions(f), " AND "@))
                + vector_search_tail(),
            filter_params(f),
        ),
        None => (vector_search_head() + vector_search_tail(), Seq::empty()),
    }
}

/// The nearest-neighbour statement of the vector store, with the filter's
/// conditions numbered from `?3`, and the filter values to bind after the
/// query vector (`?1`) and the number of neighbours (`?2`).
pub fn vector_search_statement(filter: Option<&SearchFilter>) -> (r: (String, Vec<String>))
    ensures
        (r.0@, r.1.deep_view()) == vector_search_spec(
            match filter {
                Some(f) => Some(*f),
                None => None,
            },
        ),
{
    let (clause, params) = match filter {
        Some(f) => {
            proof {
                lemma_filter_clause_short(*f);
            }
            to_sql_clause(f)
        },
        None => {
            let v: Vec<String> = Vec::new();
            assert(v.deep_view() =~= Seq::<Seq<char>>::empty());
            (String::new(), v)
        },
    };
    let numbered = numbered_filter_clause(clause.as_str());
    let head = concat(
        "SELECT\n                m.chunk_id,\n                m.entry_id,\n                m.page_id,\n                m.chunk_index,\n                m.chunk_type,\n                m.text,\n                m.entry_title,\n                m.entry_type,\n                m.source_domain,\n                m.tags,\n                v.distance\n            FROM vec_chunks v\n            JOIN chunk_metadata m ON v.chunk_id = m.chunk_id\n            WHERE v.embedding MATCH ?1\n            AND v.k = ?2\n            ",
        numbered.as_str(),
    );
    let sql = concat(head.as_str(), "\n            ORDER BY v.distance");
    proof {
        if filter is None {
            assert(numbered@ =~= Seq::<char>::empty());
        }
    }
    (sql, params)
}

/// The vector filter for search filters: none when no filter is set,
/// otherwise the same four filters.
pub fn filters_to_vec_filter(filters: &SearchFilters) -> (r: Option<SearchFilter>)
    ensures
        match r {
            None => filters.entry_type is None && filters.chunk_type is None
                && filters.source_domain is None && filters.tag is None,
            Some(f) => !(filters.entry_type is None && filters.chunk_type is None
                && filters.source_domain is None && filters.tag is None)
                && opt_view(f.entry_type) == opt_view(filters.entry_type)
                && opt_view(f.chunk_type) == opt_view(filters.chunk_type)
                && opt_view(f.source_domain) == opt_view(filters.source_domain)
                && opt_view(f.tag) == opt_view(filters.tag),
        },
{
    if filters.entry_type.is_none() && filters.chunk_type.is_none()
        && filters.source_domain.is_none() && filters.tag.is_none() {
        return None;
    }
    Some(
        SearchFilter {
            entry_type: clone_opt(&filters.entry_type),
            chunk_type: clone_opt(&filters.chunk_type),
            source_domain: clone_opt(&filters.source_domain),
            tag: clone_opt(&filters.tag),
        },
    )
}

/// Statistics of a full reindex.
#[derive(Clone, Debug)]
pub struct SearchReindexStats {
    pub entries_indexed: usize,
    pub pages_indexed: usize,
    pub issues_indexed: usize,
    pub errors: Vec<String>,
}

impl Default for SearchReindexStats {
    /// Nothing indexed, no error.
    fn default() -> (r: SearchReindexStats)
        ensures
            r.entries_indexed == 0,
            r.pages_indexed == 0,
            r.issues_indexed == 0,
            r.errors@.len() == 0,
    {
        SearchReindexStats { entries_indexed: 0, pages_indexed: 0, issues_indexed: 0, errors: Vec::new() }
    }
}

impl SearchReindexStats {
    /// Number of documents indexed.
    pub fn total(&self) -> (r: usize)
        requires
            self.entries_indexed + self.pages_indexed + self.issues_indexed <= usize::MAX,
        ensures
            r == self.entries_indexed + self.pages_indexed + self.issues_indexed,
    {
        self.entries_indexed + self.pages_indexed + self.issues_indexed
    }

    /// Whether the reindex met any error.
    pub fn has_errors(&self) -> (r: bool)
        ensures
            r == (self.errors@.len() > 0),
    {
        self.errors.len() > 0
    }
}

/// An entry as search answers show it.
#[derive(Clone, Debug)]
pub struct PatternSummary {
    pub id: String,
    pub title: String,
    pub entry_type: String,
    pub tags: Vec<String>,
    pub description: String,
    pub source_type: Option<String>,
    pub source_domain: Option<String>,
    pub source_path: Option<String>,
    pub created_at: Option<String>,
    pub updated_at: Option<String>,
}

/// Whether a summary shows the given entry: tags read from their JSON
/// array, a missing description shown empty.
pub open spec fn pattern_of(p: PatternSummary, e: EntryView) -> bool {
    &&& p.id@ == e.id
    &&& p.title@ == e.title
    &&& p.entry_type@ == e.entry_type
    &&& p.tags.deep_view() == strings_in(e.tags)
    &&& p.description@ == match e.description {
        Some(d) => d,
        None => Seq::empty(),
    }
    &&& opt_view(p.source_type) == Some(e.source_type)
    &&& opt_view(p.source_domain) == e.source_domain
    &&& opt_view(p.source_path) == Some(e.source_path)
    &&& opt_view(p.created_at) == Some(e.created_at)
    &&& opt_view(p.updated_at) == Some(e.updated_at)
}

impl PatternSummary {
    /// The summary of a stored entry.
    pub fn from_entry(entry: EntryRecord) -> (r: PatternSummary)
        ensures
            pattern_of(r, entry@),
    {
        let tags = entry.tags_vec();
        let description = match entry.description {
            Some(d) => d,
            None => String::new(),
        };
        PatternSummary {
            id: entry.id,
            title: entry.title,
            entry_type: entry.entry_type,
            tags,
            description,
            source_type: Some(entry.source_type),
            source_domain: entry.source_domain,
            source_path: Some(entry.source_path),
            created_at: Some(entry.created_at),
            updated_at: Some(entry.updated_at),
        }
    }
}

// ---------------------------------------------------------------------------
// Full-text queries
// ---------------------------------------------------------------------------

/// The tables that full-text search covers.
#[derive(Clone, Copy, Debug, PartialEq, Eq, Structural)]
pub enum FtsTable {
    Entries,
    Pages,
    Issues,
}

/// The table a name designates: `entries`, `pages` or `issues`; any other
/// name designates none, and its search finds nothing.
pub fn fts_table(name: &str) -> (r: Option<FtsTable>)
    ensures
        r == if name@ == "entries"@ {
            Some(FtsTable::Entries)
        } else if name@ == "pages"@ {
            Some(FtsTable::Pages)
        } else if name@ == "issues"@ {
            Some(FtsTable::Issues)
        } else {
            None::<FtsTable>
        },
{
    if crate::text::text_eq(name, "entries") {
        Some(FtsTable::Entries)
    } else if crate::text::text_eq(name, "pages") {
        Some(FtsTable::Pages)
    } else if crate::text::text_eq(name, "issues") {
        Some(FtsTable::Issues)
    } else {
        None
    }
}

/// A text without its double quotes.
pub open spec fn without_quotes(s: Seq<char>) -> Seq<char>
    decreases s.len(),
{
    if s.len() == 0 {
        Seq::empty()
    } else if s.last() == '"' {
        without_quotes(s.drop_last())
    } else {
        without_quotes(s.drop_last()).push(s.last())
    }
}

/// The phrase query for a phrase: the phrase, without double quotes,
/// between double quotes.
pub fn phrase_query(phrase: &str) -> (r: String)
    ensures
        r@ == seq!['"'] + without_quotes(phrase@) + seq!['"'],
{
    let cs = crate::text::to_chars(phrase);
    let mut out: Vec<char> = Vec::new();
    out.push('"');
    let mut i: usize = 0;
    while i < cs.len()
        invariant
            i <= cs@.len(),
            out@ == seq!['"'] + without_quotes(cs@.take(i as int)),
        decreases cs.len() - i,
    {
        proof {
            assert(cs@.take(i + 1).drop_last() =~= cs@.take(i as int));
            assert(cs@.take(i + 1).last() == cs@[i as int]);
        }
        if cs[i] != '"' {
            out.push(cs[i]);
        }
        i = i + 1;
    }
    assert(cs@.take(cs@.len() as int) =~= cs@);
    out.push('"');
    crate::text::from_chars(&out)
}

/// The prefix query for a prefix: the prefix followed by `*`.
pub fn prefix_query(prefix: &str) -> (r: String)
    ensures
        r@ == prefix@ + seq!['*'],
{
    proof {
        reveal_strlit("*");
    }
    concat(prefix, "*")
}

/// How many results each table gives to a search over all tables: a third
/// of the limit, at least one.
pub fn per_table_limit(limit: usize) -> (r: usize)
    ensures
        r == if limit / 3 > 1 {
            limit / 3
        } else {
            1
        },
{
    let third = limit / 3;
    if third > 1 {
        third
    } else {
        1
    }
}

} // verus!
