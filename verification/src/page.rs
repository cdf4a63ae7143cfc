//! Pages: the full content of crawled pages kept for retrieval context,
//! with their content hash, length and number of code blocks.
use vstd::prelude::*;
use vstd::string::StringSliceAdditionalSpecFns;
use vstd::utf8::{encode_utf8, is_char_boundary};

use sha2::Digest;

use crate::json::{json_text, json_value_text, json_wf, JsonValue};
use crate::ids::{new_uuid, now_rfc3339, random_uuid_text, rfc3339_utc_text};
use crate::text::{bytes_to_hex, hex_bytes, opt_view, own, to_chars};

verus! {

broadcast use vstd::string::group_string_axioms;

/// The SHA-256 digest of a byte string.
pub uninterp spec fn sha256_of(data: Seq<u8>) -> Seq<u8>;

/// `sha2::Sha256::digest`: the SHA-256 digest of the bytes, 32 bytes long.
/// The digest itself is given a name.
#[verifier::external_body]
fn sha256_digest(data: &[u8]) -> (r: Vec<u8>)
    ensures
        r@ == sha256_of(data@),
        r@.len() == 32,
{
    sha2::Sha256::digest(data).to_vec()
}

/// Number of code fences (three backticks) in a text, counted from the
/// left without overlaps.
pub open spec fn fence_count(s: Seq<char>) -> nat
    decreases s.len(),
{
    if s.len() < 3 {
        0
    } else if s[0] == '`' && s[1] == '`' && s[2] == '`' {
        1 + fence_count(s.skip(3))
    } else {
        fence_count(s.drop_first())
    }
}

/// Count the code fences of a text, from position `i` on.
fn fences_from(cs: &Vec<char>, i: usize) -> (r: usize)
    requires
        i <= cs@.len(),
    ensures
        r == fence_count(cs@.skip(i as int)),
    decreases cs@.len() - i,
{
    let mut count: usize = 0;
    let mut j: usize = i;
    while j < cs.len()
        invariant
            i <= j <= cs@.len(),
            count + fence_count(cs@.skip(j as int)) == fence_count(cs@.skip(i as int)),
            count <= j,
        decreases cs@.len() - j,
    {
        let ghost rest = cs@.skip(j as int);
        if cs.len() - j >= 3 && cs[j] == '`' && cs[j + 1] == '`' && cs[j + 2] == '`' {
            assert(rest.skip(3) =~= cs@.skip(j + 3));
            count = count + 1;
            j = j + 3;
        } else {
            if cs.len() - j >= 3 {
                assert(rest.drop_first() =~= cs@.skip(j + 1));
            } else {
                assert(rest.len() < 3);
                assert(fence_count(cs@.skip(cs@.len() as int)) == 0);
                proof {
                    lemma_fence_count_short(cs@, j as int);
                }
            }
            j = j + 1;
        }
    }
    assert(cs@.skip(cs@.len() as int).len() == 0);
    count
}

proof fn lemma_fence_count_short(s: Seq<char>, j: int)
    requires
        0 <= j <= s.len(),
        s.len() - j < 3,
    ensures
        fence_count(s.skip(j)) == 0,
        j < s.len() ==> fence_count(s.skip(j + 1)) == 0,
{
}

/// A stored page.
#[derive(Clone, Debug)]
pub struct PageRecord {
    /// Unique identifier (UUID).
    pub page_id: String,
    /// The entry that the page belongs to.
    pub source_id: String,
    /// Original address.
    pub url: String,
    pub title: Option<String>,
    /// Full markdown content.
    pub full_content: String,
    /// SHA-256 of the content, in lowercase hexadecimal.
    pub content_hash: String,
    /// Length of the content in bytes.
    pub content_length: i64,
    /// Number of code blocks.
    pub code_block_count: i64,
    /// Extra metadata as JSON text.
    pub metadata: Option<String>,
    /// Crawl time in milliseconds.
    pub crawl_time_ms: Option<i64>,
    pub created_at: String,
}

/// Whether a page records the given content: its hash, length in bytes and
/// number of complete code blocks (pairs of fences).
pub open spec fn describes_content(p: PageRecord, content: &str) -> bool {
    &&& p.full_content@ == content@
    &&& p.content_hash@ == hex_bytes(sha256_of(encode_utf8(content@)))
    &&& p.content_length == encode_utf8(content@).len() as i64
    &&& p.code_block_count == (fence_count(content@) / 2) as i64
}

impl PageRecord {
    /// A new page of an entry, with a fresh identifier, created now; the
    /// hash, length and code block count come from the content.
    pub fn new(source_id: &str, url: &str, full_content: &str) -> (r: PageRecord)
        ensures
            random_uuid_text(r.page_id@),
            r.source_id@ == source_id@,
            r.url@ == url@,
            r.title is None,
            describes_content(r, full_content),
            r.metadata is None,
            r.crawl_time_ms is None,
            rfc3339_utc_text(r.created_at@),
    {
        let bytes = full_content.as_bytes();
        let content_len: usize = bytes.len();
        let cs = to_chars(full_content);
        let fences: usize = fences_from(&cs, 0);
        assert(cs@.skip(0) =~= cs@);
        let digest = sha256_digest(bytes);
        let content_hash = bytes_to_hex(&digest);
        PageRecord {
            page_id: new_uuid(),
            source_id: own(source_id),
            url: own(url),
            title: None,
            full_content: own(full_content),
            content_hash,
            content_length: #[verifier::truncate] (content_len as i64),
            code_block_count: #[verifier::truncate] ((fences / 2) as i64),
            metadata: None,
            crawl_time_ms: None,
            created_at: now_rfc3339(),
        }
    }

    /// The page with the given title.
    pub fn with_title(self, title: &str) -> (r: PageRecord)
        ensures
            opt_view(r.title) == Some(title@),
            r == (PageRecord { title: r.title, ..self }),
    {
        PageRecord { title: Some(own(title)), ..self }
    }

    /// The page with the given crawl time.
    pub fn with_crawl_time(self, ms: u64) -> (r: PageRecord)
        ensures
            r == (PageRecord { crawl_time_ms: Some(ms as i64), ..self }),
    {
        PageRecord { crawl_time_ms: Some(ms as i64), ..self }
    }

    /// The page with the given metadata, kept as its compact JSON text.
    pub fn with_metadata(self, metadata: JsonValue) -> (r: PageRecord)
        requires
            json_wf(metadata),
        ensures
            opt_view(r.metadata) == Some(json_text(metadata)),
            r == (PageRecord { metadata: r.metadata, ..self }),
    {
        PageRecord { metadata: Some(json_value_text(&metadata)), ..self }
    }

    /// The number of complete code blocks in the content, counted anew:
    /// half the number of code fences.
    pub fn code_block_count_actual(&self) -> (r: usize)
        ensures
            r == fence_count(self.full_content@) / 2,
    {
        let cs = to_chars(self.full_content.as_str());
        let fences: usize = fences_from(&cs, 0);
        assert(cs@.skip(0) =~= cs@);
        fences / 2
    }

    /// The first `max_chars` characters of the content (all of it when it
    /// is shorter).
    pub fn content_preview(&self, max_chars: usize) -> (r: &str)
        ensures
            r@ == self.full_content@.take(
                if self.full_content@.len() <= max_chars {
                    self.full_content@.len() as int
                } else {
                    max_chars as int
                },
            ),
    {
        let s = self.full_content.as_str();
        let n: usize = s.unicode_len();
        let end: usize = if n <= max_chars {
            n
        } else {
            max_chars
        };
        s.substring_char(0, end)
    }
}

} // verus!
