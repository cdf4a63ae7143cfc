//! Indexing: configuration of URL and file indexing, delete targets and
//! results, index statistics, job identifiers and job states.
use vstd::prelude::*;

use crate::errors::ServiceError;
use crate::ids::{is_uuid_text, uuid_text};
use crate::text::{concat, own, text_eq};

verus! {

broadcast use vstd::string::group_string_axioms;

/// A code extraction pattern.
#[derive(Clone, Debug)]
pub struct PatternInfo {
    pub name: String,
    pub css_selector: String,
    pub description: String,
    pub example_sites: Vec<String>,
}

/// A supported programming language.
#[derive(Clone, Debug)]
pub struct LanguageInfo {
    pub name: String,
    pub aliases: Vec<String>,
    pub extensions: Vec<String>,
    pub tree_sitter_support: bool,
}

/// Why extracted code was rejected, and how often.
#[derive(Clone, Debug)]
pub struct RejectionReason {
    pub reason: String,
    pub count: usize,
}

/// An extracted code block.
#[derive(Clone, Debug)]
pub struct CodeBlockResponse {
    pub id: String,
    pub content: String,
    pub language: String,
    pub pattern: String,
    pub line_count: usize,
    pub source_url: String,
    pub validated: bool,
}

/// What a deletion targets.
#[derive(Clone, Debug)]
pub enum DeleteTarget {
    /// One document by identifier.
    Single(String),
    /// Several documents by identifier.
    Multiple(Vec<String>),
    /// The documents with a tag.
    Tag(String),
    /// The documents of a source domain.
    Domain(String),
}

/// Result of a deletion.
#[derive(Clone, Debug)]
pub struct DeleteResult {
    pub deleted: usize,
    pub ids: Vec<String>,
    pub dry_run: bool,
}

/// Index statistics.
#[derive(Clone, Debug)]
pub struct IndexStats {
    pub total_documents: usize,
    pub total_chunks: usize,
    pub total_pages: usize,
}

/// Configuration of URL indexing.
#[derive(Clone, Debug)]
pub struct UrlIndexConfig {
    pub url: String,
    pub depth: usize,
    pub respect_robots: bool,
    pub render_js: bool,
    pub timeout_secs: u64,
    pub max_pages: usize,
    pub priority: Option<u8>,
}

impl Default for UrlIndexConfig {
    /// No address yet; depth 1, robots rules respected, JavaScript
    /// rendered, 30 seconds per page, no page limit, priority 5.
    fn default() -> (r: UrlIndexConfig)
        ensures
            r.url@ == Seq::<char>::empty(),
            r.depth == 1,
            r.respect_robots,
            r.render_js,
            r.timeout_secs == 30,
            r.max_pages == 0,
            r.priority == Some(5u8),
    {
        UrlIndexConfig {
            url: String::new(),
            depth: 1,
            respect_robots: true,
            render_js: true,
            timeout_secs: 30,
            max_pages: 0,
            priority: Some(5),
        }
    }
}

/// A file to index.
#[derive(Clone, Debug)]
pub struct FileInput {
    pub filename: String,
    pub content: Vec<u8>,
}

/// Configuration of file indexing.
#[derive(Clone, Debug)]
pub struct FileIndexConfig {
    pub files: Vec<FileInput>,
    pub tags: Option<Vec<String>>,
}

/// Options of synchronous indexing.
#[derive(Clone, Debug)]
pub struct SyncIndexOptions {
    pub id: Option<String>,
    pub title: Option<String>,
    pub tags: Option<Vec<String>>,
    pub replace: bool,
}

impl Default for SyncIndexOptions {
    /// No identifier, title or tags; nothing replaced.
    fn default() -> (r: SyncIndexOptions)
        ensures
            r.id is None,
            r.title is None,
            r.tags is None,
            !r.replace,
    {
        SyncIndexOptions { id: None, title: None, tags: None, replace: false }
    }
}

/// Result of synchronous indexing.
#[derive(Clone, Debug)]
pub struct SyncIndexResult {
    pub document_id: String,
    pub chunks_created: usize,
    pub status: String,
}

/// Check a job identifier: it must be a UUID; otherwise a validation error
/// names it.
pub fn parse_job_id(id_str: &str) -> (r: Result<String, ServiceError>)
    ensures
        match r {
            Ok(s) => uuid_text(id_str@) && s@ == id_str@,
            Err(ServiceError::Validation(m)) => !uuid_text(id_str@) && m@ == "Invalid job ID format: "@
                + id_str@,
            Err(_) => false,
        },
{
    if is_uuid_text(id_str) {
        Ok(own(id_str))
    } else {
        Err(ServiceError::Validation(concat("Invalid job ID format: ", id_str)))
    }
}

/// The states in which a job has ended.
pub open spec fn terminal_state(state: Seq<char>) -> bool {
    state == "completed"@ || state == "failed"@ || state == "cancelled"@
}

/// A job has ended exactly when it completed, failed or was cancelled;
/// pending and running jobs have not.
pub proof fn law_terminal_states(state: Seq<char>)
    ensures
        state == "completed"@ ==> terminal_state(state),
        state == "failed"@ ==> terminal_state(state),
        state == "cancelled"@ ==> terminal_state(state),
        terminal_state(state) ==> state == "completed"@ || state == "failed"@ || state == "cancelled"@,
{
}

/// Whether a job state is terminal: completed, failed or cancelled.
pub fn is_terminal_state(state: &str) -> (r: bool)
    ensures
        r == terminal_state(state@),
{
    text_eq(state, "completed") || text_eq(state, "failed") || text_eq(state, "cancelled")
}

} // verus!
