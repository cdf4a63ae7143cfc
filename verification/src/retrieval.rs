//! Retrieval: search modes and paging, filters, documents with their
//! chunks, page context for answers, and related entries.
use vstd::prelude::*;

use crate::entry::EntryRecord;
use crate::errors::ServiceError;
use crate::json::strings_in;
use crate::page::PageRecord;
use crate::search::SearchFilters;
use crate::services::{page_of, paginate};
use crate::text::{concat, opt_view, own, text_eq, to_chars, from_chars};

verus! {

broadcast use vstd::string::group_string_axioms;

/// How a knowledge search runs.
#[derive(Clone, Copy, Debug, PartialEq, Eq, Structural)]
pub enum SearchMode {
    /// Vector and full-text search combined (the default).
    Hybrid,
    /// Semantic vector search only.
    Vector,
    /// Keyword search only.
    Text,
}

impl Default for SearchMode {
    /// Hybrid search.
    fn default() -> (r: SearchMode)
        ensures
            r == SearchMode::Hybrid,
    {
        SearchMode::Hybrid
    }
}

/// Whether a search in this mode needs an embedding of the query: every
/// mode but keyword search.
pub fn needs_embedding(mode: SearchMode) -> (r: bool)
    ensures
        r == !(mode is Text),
{
    match mode {
        SearchMode::Text => false,
        _ => true,
    }
}

/// Whether a search in this mode includes full-text search: hybrid and
/// keyword search do, vector search does not.
pub fn uses_full_text(mode: SearchMode) -> (r: bool)
    ensures
        r == !(mode is Vector),
{
    match mode {
        SearchMode::Vector => false,
        _ => true,
    }
}

/// Paging of a listing.
#[derive(Clone, Copy, Debug)]
pub struct Pagination {
    pub limit: usize,
    pub offset: usize,
}

impl Default for Pagination {
    /// Limit and offset zero.
    fn default() -> (r: Pagination)
        ensures
            r.limit == 0,
            r.offset == 0,
    {
        Pagination { limit: 0, offset: 0 }
    }
}

impl Pagination {
    /// Paging from caller values: the limit is 10 unless given and at most
    /// 100; the offset is 0 unless given.
    pub fn new(limit: Option<usize>, offset: Option<usize>) -> (r: Pagination)
        ensures
            r.limit == match limit {
                Some(l) => if l < 100 {
                    l
                } else {
                    100
                },
                None => 10,
            },
            r.offset == match offset {
                Some(o) => o,
                None => 0,
            },
    {
        let l = match limit {
            Some(l) => l,
            None => 10,
        };
        Pagination {
            limit: if l < 100 {
                l
            } else {
                100
            },
            offset: match offset {
                Some(o) => o,
                None => 0,
            },
        }
    }

    /// How many results a search fetches to serve the page: the offset
    /// plus the limit.
    pub fn fetch_limit(&self) -> (r: usize)
        requires
            self.limit + self.offset <= usize::MAX,
        ensures
            r == self.limit + self.offset,
    {
        self.limit + self.offset
    }
}

/// Filters of a search query.
#[derive(Clone, Debug)]
pub struct QueryFilters {
    pub entry_type: Option<String>,
    pub chunk_type: Option<String>,
    pub tag: Option<String>,
    pub source_domain: Option<String>,
}

impl Default for QueryFilters {
    /// No filter at all.
    fn default() -> (r: QueryFilters)
        ensures
            r.entry_type is None,
            r.chunk_type is None,
            r.tag is None,
            r.source_domain is None,
    {
        QueryFilters { entry_type: None, chunk_type: None, tag: None, source_domain: None }
    }
}

impl QueryFilters {
    /// The same filters as store search filters.
    pub fn into_search_filters(self) -> (r: SearchFilters)
        ensures
            r.entry_type == self.entry_type,
            r.chunk_type == self.chunk_type,
            r.tag == self.tag,
            r.source_domain == self.source_domain,
    {
        SearchFilters {
            entry_type: self.entry_type,
            chunk_type: self.chunk_type,
            tag: self.tag,
            source_domain: self.source_domain,
        }
    }
}

/// The address shown for a source domain.
pub fn source_url(domain: Option<String>) -> (r: Option<String>)
    ensures
        opt_view(r) == match domain {
            Some(d) => Some("https://"@ + d@),
            None => None,
        },
{
    proof {
        reveal_strlit("https://");
    }
    match domain {
        Some(d) => Some(concat("https://", d.as_str())),
        None => None,
    }
}

/// Full page content for answer context.
#[derive(Clone, Debug)]
pub struct PageContext {
    pub page_id: String,
    pub url: String,
    pub title: Option<String>,
    pub full_content: String,
    pub content_length: usize,
    pub code_block_count: usize,
}

/// The context of a stored page; its counts are taken as `usize`.
pub fn page_context(page: PageRecord) -> (r: PageContext)
    ensures
        r.page_id@ == page.page_id@,
        r.url@ == page.url@,
        opt_view(r.title) == opt_view(page.title),
        r.full_content@ == page.full_content@,
        r.content_length == page.content_length as usize,
        r.code_block_count == page.code_block_count as usize,
{
    PageContext {
        page_id: page.page_id,
        url: page.url,
        title: page.title,
        full_content: page.full_content,
        content_length: #[verifier::truncate] (page.content_length as usize),
        code_block_count: #[verifier::truncate] (page.code_block_count as usize),
    }
}

/// The part of a text before its first `#` (all of it when there is
/// none).
pub open spec fn before_hash(s: Seq<char>) -> Seq<char>
    decreases s.len(),
{
    if s.len() == 0 {
        Seq::empty()
    } else if s[0] == '#' {
        Seq::empty()
    } else {
        seq![s[0]] + before_hash(s.drop_first())
    }
}

/// The part before the first `#` is a prefix of the text that holds no
/// `#`, and it stops either at the end of the text or at a `#`.
pub proof fn law_before_hash(s: Seq<char>)
    ensures
        before_hash(s).len() <= s.len(),
        before_hash(s) == s.take(before_hash(s).len() as int),
        forall|k: int| 0 <= k < before_hash(s).len() ==> #[trigger] before_hash(s)[k] != '#',
        before_hash(s).len() < s.len() ==> s[before_hash(s).len() as int] == '#',
    decreases s.len(),
{
    if s.len() > 0 && s[0] != '#' {
        law_before_hash(s.drop_first());
        let t = before_hash(s.drop_first());
        assert(seq![s[0]] + s.drop_first().take(t.len() as int) =~= s.take(t.len() as int + 1));
        assert forall|k: int| 0 <= k < before_hash(s).len() implies #[trigger] before_hash(s)[k] != '#' by {
            if k > 0 {
                assert(before_hash(s)[k] == t[k - 1]);
            }
        }
    } else if s.len() > 0 {
        assert(s.take(0) =~= Seq::<char>::empty());
    } else {
        assert(s.take(0) =~= Seq::<char>::empty());
    }
}

proof fn lemma_before_hash_prefix(s: Seq<char>, i: int)
    requires
        0 <= i <= s.len(),
        forall|k: int| 0 <= k < i ==> s[k] != '#',
    ensures
        before_hash(s) == s.take(i) + before_hash(s.skip(i)),
    decreases i,
{
    if i > 0 {
        lemma_before_hash_prefix(s.drop_first(), i - 1);
        assert(s.drop_first().take(i - 1) =~= s.take(i).drop_first());
        assert(s.drop_first().skip(i - 1) =~= s.skip(i));
        assert(seq![s[0]] + s.take(i).drop_first() =~= s.take(i));
    } else {
        assert(s.take(0) =~= Seq::<char>::empty());
        assert(s.skip(0) =~= s);
    }
}

/// The page to show: the page identifier when given, otherwise the entry
/// part of the chunk identifier (chunk identifiers read
/// `{entry_id}#{chunk_index}`); with neither, a validation error.
pub fn resolve_page_id(page_id: Option<&str>, chunk_id: Option<&str>) -> (r: Result<String, ServiceError>)
    ensures
        match (page_id, chunk_id) {
            (Some(p), _) => r matches Ok(s) && s@ == p@,
            (None, Some(c)) => r matches Ok(s) && s@ == before_hash(c@),
            (None, None) => r matches Err(ServiceError::Validation(m))
                && m@ == "Either page_id or chunk_id must be provided"@,
        },
{
    match (page_id, chunk_id) {
        (Some(p), _) => Ok(own(p)),
        (None, Some(c)) => {
            let cs = to_chars(c);
            let mut out: Vec<char> = Vec::new();
            let mut i: usize = 0;
            while i < cs.len() && cs[i] != '#'
                invariant
                    i <= cs@.len(),
                    cs@ == c@,
                    out@ == cs@.take(i as int),
                    forall|k: int| 0 <= k < i ==> cs@[k] != '#',
                decreases cs.len() - i,
            {
                out.push(cs[i]);
                proof {
                    assert(cs@.take(i + 1) =~= cs@.take(i as int).push(cs@[i as int]));
                }
                i = i + 1;
            }
            proof {
                lemma_before_hash_prefix(cs@, i as int);
                let rest = cs@.skip(i as int);
                if i < cs@.len() {
                    assert(rest[0] == '#');
                } else {
                    assert(rest.len() == 0);
                }
                assert(before_hash(rest) =~= Seq::<char>::empty());
                assert(out@ + Seq::<char>::empty() =~= out@);
            }
            Ok(from_chars(&out))
        },
        (None, None) => Err(ServiceError::Validation(own("Either page_id or chunk_id must be provided"))),
    }
}

/// A chunk of a document.
#[derive(Clone, Debug)]
pub struct ChunkInfo {
    pub chunk_id: String,
    pub chunk_index: i32,
    pub chunk_type: Option<String>,
    pub text: String,
}

/// A chunk as documents show it: its index taken as `i32`, its type given.
pub fn chunk_info(chunk_id: String, chunk_index: u32, chunk_type: String, text: String) -> (r: ChunkInfo)
    ensures
        r.chunk_id@ == chunk_id@,
        r.chunk_index == chunk_index as i32,
        opt_view(r.chunk_type) == Some(chunk_type@),
        r.text@ == text@,
{
    ChunkInfo {
        chunk_id,
        chunk_index: #[verifier::truncate] (chunk_index as i32),
        chunk_type: Some(chunk_type),
        text,
    }
}

/// A document: an entry's metadata, with its chunks on request.
#[derive(Clone, Debug)]
pub struct Document {
    pub id: String,
    pub title: String,
    pub description: String,
    pub entry_type: String,
    pub source_url: Option<String>,
    pub source_domain: Option<String>,
    pub tags: Vec<String>,
    pub created_at: Option<String>,
    pub chunks: Option<Vec<ChunkInfo>>,
}

/// The document of a stored entry: tags read from their JSON array, a
/// missing description shown empty, the source path as address.
pub fn document_of(entry: EntryRecord, chunks: Option<Vec<ChunkInfo>>) -> (r: Document)
    ensures
        r.id@ == entry@.id,
        r.title@ == entry@.title,
        r.description@ == match entry@.description {
            Some(d) => d,
            None => Seq::empty(),
        },
        r.entry_type@ == entry@.entry_type,
        opt_view(r.source_url) == Some(entry@.source_path),
        opt_view(r.source_domain) == entry@.source_domain,
        r.tags.deep_view() == strings_in(entry@.tags),
        opt_view(r.created_at) == Some(entry@.created_at),
        r.chunks == chunks,
{
    let tags = entry.tags_vec();
    let description = match entry.description {
        Some(d) => d,
        None => String::new(),
    };
    Document {
        id: entry.id,
        title: entry.title,
        description,
        entry_type: entry.entry_type,
        source_url: Some(entry.source_path),
        source_domain: entry.source_domain,
        tags,
        created_at: Some(entry.created_at),
        chunks,
    }
}

/// The first `limit` positions among the first `n` whose entry is not the
/// given one.
pub open spec fn related_positions(ids: Seq<Seq<char>>, self_id: Seq<char>, n: int, limit: nat) -> Seq<int>
    decreases n,
{
    if n <= 0 {
        Seq::empty()
    } else {
        let before = related_positions(ids, self_id, n - 1, limit);
        if ids[n - 1] != self_id && before.len() < limit {
            before.push(n - 1)
        } else {
            before
        }
    }
}

/// The related positions are, in increasing order, positions among the
/// first `n` whose entry is another one than the given entry, at most
/// `limit` of them, and none is skipped: while fewer than `limit` are
/// taken, every position of another entry is taken.
pub proof fn law_related_positions(ids: Seq<Seq<char>>, self_id: Seq<char>, n: int, limit: nat)
    requires
        0 <= n <= ids.len(),
    ensures
        ({
            let r = related_positions(ids, self_id, n, limit);
            &&& r.len() <= limit
            &&& forall|k: int| 0 <= k < r.len() ==> 0 <= #[trigger] r[k] < n && ids[r[k]] != self_id
            &&& forall|k: int, l: int| 0 <= k < l < r.len() ==> #[trigger] r[k] < #[trigger] r[l]
            &&& r.len() < limit ==> forall|i: int| 0 <= i < n && ids[i] != self_id ==> #[trigger] r.contains(i)
        }),
    decreases n,
{
    if n > 0 {
        law_related_positions(ids, self_id, n - 1, limit);
        let before = related_positions(ids, self_id, n - 1, limit);
        let r = related_positions(ids, self_id, n, limit);
        if ids[n - 1] != self_id && before.len() < limit {
            assert(r == before.push(n - 1));
            assert forall|i: int| 0 <= i < n && ids[i] != self_id && r.len() < limit implies #[trigger] r.contains(i) by {
                if i == n - 1 {
                    assert(r[r.len() - 1] == i);
                } else {
                    assert(before.contains(i));
                    let k = choose|k: int| 0 <= k < before.len() && before[k] == i;
                    assert(r[k] == i);
                }
            }
        } else {
            assert(r == before);
        }
    }
}

/// Which search results to show as related entries: in order, those of
/// other entries than the given one, at most `limit` of them.
pub fn related_picks(entry_ids: &Vec<String>, self_id: &str, limit: usize) -> (r: Vec<usize>)
    ensures
        r@.map_values(|i: usize| i as int) == related_positions(
            entry_ids.deep_view(),
            self_id@,
            entry_ids@.len() as int,
            limit as nat,
        ),
{
    let mut picks: Vec<usize> = Vec::new();
    let mut i: usize = 0;
    while i < entry_ids.len()
        invariant
            i <= entry_ids@.len(),
            picks@.map_values(|k: usize| k as int) == related_positions(
                entry_ids.deep_view(),
                self_id@,
                i as int,
                limit as nat,
            ),
            picks@.len() <= limit,
        decreases entry_ids.len() - i,
    {
        let ghost before = picks@;
        if !text_eq(entry_ids[i].as_str(), self_id) && picks.len() < limit {
            picks.push(i);
            proof {
                assert(picks@.map_values(|k: usize| k as int) =~= before.map_values(
                    |k: usize| k as int,
                ).push(i as int));
            }
        }
        i = i + 1;
    }
    picks
}

/// The text to embed for an entry without a stored embedding.
pub fn related_query(title: &str, description: &str) -> (r: String)
    ensures
        r@ == "entries related to "@ + title@ + " "@ + description@,
{
    let a = concat("entries related to ", title);
    let b = concat(a.as_str(), " ");
    concat(b.as_str(), description)
}

/// How many vector results to fetch for `limit` related entries: one more,
/// since the entry itself comes back too.
pub fn related_fetch_limit(limit: usize) -> (r: usize)
    requires
        limit < usize::MAX,
    ensures
        r == limit + 1,
{
    limit + 1
}

/// One page of search results, with the number of results found and
/// whether more follow, for the query that found them.
pub struct SearchPage<T> {
    pub results: Vec<T>,
    pub total_count: usize,
    pub has_more: bool,
    pub query: String,
}

/// The page of `results` that `pagination` asks for: at most `limit`
/// results from `offset` on; `has_more` when results remain after the page.
pub fn search_page<T>(results: Vec<T>, query: &str, pagination: &Pagination) -> (r: SearchPage<T>)
    requires
        pagination.limit + pagination.offset <= usize::MAX,
    ensures
        r.results@ == page_of(results@, pagination.offset as int, pagination.limit as int),
        r.results@.len() <= pagination.limit,
        r.total_count == results@.len(),
        r.has_more == (r.total_count > pagination.offset + pagination.limit),
        r.query@ == query@,
{
    let (page, total_count, has_more) = paginate(results, pagination.offset, pagination.limit);
    SearchPage { results: page, total_count, has_more, query: own(query) }
}

} // verus!
