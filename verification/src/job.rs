//! Indexing jobs: the record of each item a job handled, its lifecycle
//! marks, and aggregate statistics over jobs.
use vstd::prelude::*;

use crate::ids::{new_uuid, now_rfc3339, random_uuid_text, rfc3339_utc_text};
use crate::text::{opt_view, own, text_eq};

verus! {

broadcast use vstd::string::group_string_axioms;

/// One item (page or file) handled by a job.
#[derive(Clone, Debug)]
pub struct JobItemRecord {
    /// Unique identifier (UUID).
    pub item_id: String,
    /// The job.
    pub job_id: String,
    /// Address or file path.
    pub item_path: String,
    /// `"page"` or `"file"`.
    pub item_type: String,
    /// `"pending"`, `"processing"`, `"completed"`, `"error"` or `"skipped"`.
    pub status: String,
    /// Address of the page that linked here.
    pub parent_url: Option<String>,
    /// Crawl depth.
    pub depth: i64,
    pub discovered_at: String,
    pub started_at: Option<String>,
    pub completed_at: Option<String>,
    pub chunks_created: i64,
    pub embeddings_generated: i64,
    pub duration_ms: i64,
    pub error_message: Option<String>,
}

/// Mathematical view of a job item.
pub struct JobItemView {
    pub item_id: Seq<char>,
    pub job_id: Seq<char>,
    pub item_path: Seq<char>,
    pub item_type: Seq<char>,
    pub status: Seq<char>,
    pub parent_url: Option<Seq<char>>,
    pub depth: i64,
    pub discovered_at: Seq<char>,
    pub started_at: Option<Seq<char>>,
    pub completed_at: Option<Seq<char>>,
    pub chunks_created: i64,
    pub embeddings_generated: i64,
    pub duration_ms: i64,
    pub error_message: Option<Seq<char>>,
}

impl View for JobItemRecord {
    type V = JobItemView;

    open spec fn view(&self) -> JobItemView {
        JobItemView {
            item_id: self.item_id@,
            job_id: self.job_id@,
            item_path: self.item_path@,
            item_type: self.item_type@,
            status: self.status@,
            parent_url: opt_view(self.parent_url),
            depth: self.depth,
            discovered_at: self.discovered_at@,
            started_at: opt_view(self.started_at),
            completed_at: opt_view(self.completed_at),
            chunks_created: self.chunks_created,
            embeddings_generated: self.embeddings_generated,
            duration_ms: self.duration_ms,
            error_message: opt_view(self.error_message),
        }
    }
}

/// A freshly discovered item, pending, with the given identifier and
/// discovery time.
pub open spec fn fresh_job_item(id: Seq<char>, now: Seq<char>, job_id: Seq<char>, path: Seq<char>, item_type: Seq<char>) -> JobItemView {
    JobItemView {
        item_id: id,
        job_id,
        item_path: path,
        item_type,
        status: "pending"@,
        parent_url: None,
        depth: 0,
        discovered_at: now,
        started_at: None,
        completed_at: None,
        chunks_created: 0,
        embeddings_generated: 0,
        duration_ms: 0,
        error_message: None,
    }
}

impl JobItemRecord {
    /// A new pending item of a job, with a fresh identifier, discovered
    /// now.
    pub fn new(job_id: &str, item_path: &str, item_type: &str) -> (r: JobItemRecord)
        ensures
            random_uuid_text(r@.item_id),
            r@ == fresh_job_item(r@.item_id, r@.discovered_at, job_id@, item_path@, item_type@),
            rfc3339_utc_text(r@.discovered_at),
    {
        JobItemRecord {
            item_id: new_uuid(),
            job_id: own(job_id),
            item_path: own(item_path),
            item_type: own(item_type),
            status: own("pending"),
            parent_url: None,
            depth: 0,
            discovered_at: now_rfc3339(),
            started_at: None,
            completed_at: None,
            chunks_created: 0,
            embeddings_generated: 0,
            duration_ms: 0,
            error_message: None,
        }
    }

    /// A new pending page item.
    pub fn new_page(job_id: &str, url: &str) -> (r: JobItemRecord)
        ensures
            random_uuid_text(r@.item_id),
            r@ == fresh_job_item(r@.item_id, r@.discovered_at, job_id@, url@, "page"@),
            rfc3339_utc_text(r@.discovered_at),
    {
        JobItemRecord::new(job_id, url, "page")
    }

    /// A new pending file item.
    pub fn new_file(job_id: &str, path: &str) -> (r: JobItemRecord)
        ensures
            random_uuid_text(r@.item_id),
            r@ == fresh_job_item(r@.item_id, r@.discovered_at, job_id@, path@, "file"@),
            rfc3339_utc_text(r@.discovered_at),
    {
        JobItemRecord::new(job_id, path, "file")
    }

    /// The item with the given parent address.
    pub fn with_parent(self, parent_url: &str) -> (r: JobItemRecord)
        ensures
            r@ == (JobItemView { parent_url: Some(parent_url@), ..self@ }),
    {
        JobItemRecord { parent_url: Some(own(parent_url)), ..self }
    }

    /// The item at the given depth.
    pub fn with_depth(self, depth: i64) -> (r: JobItemRecord)
        ensures
            r@ == (JobItemView { depth, ..self@ }),
    {
        JobItemRecord { depth, ..self }
    }

    /// Mark the item as being processed, from now.
    pub fn mark_started(&mut self)
        ensures
            final(self)@ == (JobItemView {
                status: "processing"@,
                started_at: final(self)@.started_at,
                ..old(self)@
            }),
            final(self)@.started_at matches Some(t) && rfc3339_utc_text(t),
    {
        self.started_at = Some(now_rfc3339());
        self.status = own("processing");
    }

    /// Mark the item as completed now, with its statistics.
    pub fn mark_completed(&mut self, chunks: i64, embeddings: i64, duration_ms: i64)
        ensures
            final(self)@ == (JobItemView {
                status: "completed"@,
                completed_at: final(self)@.completed_at,
                chunks_created: chunks,
                embeddings_generated: embeddings,
                duration_ms,
                ..old(self)@
            }),
            final(self)@.completed_at matches Some(t) && rfc3339_utc_text(t),
    {
        self.completed_at = Some(now_rfc3339());
        self.status = own("completed");
        self.chunks_created = chunks;
        self.embeddings_generated = embeddings;
        self.duration_ms = duration_ms;
    }

    /// Mark the item as failed now, with the error message.
    pub fn mark_error(&mut self, message: &str)
        ensures
            final(self)@ == (JobItemView {
                status: "error"@,
                completed_at: final(self)@.completed_at,
                error_message: Some(message@),
                ..old(self)@
            }),
            final(self)@.completed_at matches Some(t) && rfc3339_utc_text(t),
    {
        self.completed_at = Some(now_rfc3339());
        self.status = own("error");
        self.error_message = Some(own(message));
    }

    /// Mark the item as skipped now.
    pub fn mark_skipped(&mut self)
        ensures
            final(self)@ == (JobItemView {
                status: "skipped"@,
                completed_at: final(self)@.completed_at,
                ..old(self)@
            }),
            final(self)@.completed_at matches Some(t) && rfc3339_utc_text(t),
    {
        self.completed_at = Some(now_rfc3339());
        self.status = own("skipped");
    }

    /// Whether the item was processed.
    pub fn is_completed(&self) -> (r: bool)
        ensures
            r == (self@.status == "completed"@),
    {
        text_eq(self.status.as_str(), "completed")
    }

    /// Whether processing the item failed.
    pub fn is_error(&self) -> (r: bool)
        ensures
            r == (self@.status == "error"@),
    {
        text_eq(self.status.as_str(), "error")
    }

    /// Whether the item was skipped.
    pub fn is_skipped(&self) -> (r: bool)
        ensures
            r == (self@.status == "skipped"@),
    {
        text_eq(self.status.as_str(), "skipped")
    }
}

/// Statistics over jobs.
#[derive(Clone, Debug)]
pub struct JobAggregateStats {
    pub total_jobs: usize,
    pub completed_jobs: usize,
    pub failed_jobs: usize,
    pub running_jobs: usize,
}

impl Default for JobAggregateStats {
    /// No job at all.
    fn default() -> (r: JobAggregateStats)
        ensures
            r.total_jobs == 0,
            r.completed_jobs == 0,
            r.failed_jobs == 0,
            r.running_jobs == 0,
    {
        JobAggregateStats { total_jobs: 0, completed_jobs: 0, failed_jobs: 0, running_jobs: 0 }
    }
}

/// Number of the first `n` statuses that satisfy `p`.
pub open spec fn count_status(statuses: Seq<Seq<char>>, n: int, p: spec_fn(Seq<char>) -> bool) -> nat
    decreases n,
{
    if n <= 0 {
        0
    } else {
        count_status(statuses, n - 1, p) + if p(statuses[n - 1]) {
            1nat
        } else {
            0nat
        }
    }
}

/// A running job is `"running"` or `"in_progress"`.
pub open spec fn running_status(s: Seq<char>) -> bool {
    s == "running"@ || s == "in_progress"@
}

/// Statistics over jobs with the given statuses: completed, failed and
/// running (`"running"` or `"in_progress"`) jobs are counted; other
/// statuses count only in the total.
pub fn aggregate_stats(statuses: &Vec<String>) -> (r: JobAggregateStats)
    ensures
        r.total_jobs == statuses@.len(),
        r.completed_jobs == count_status(statuses.deep_view(), statuses@.len() as int, |s: Seq<char>| s == "completed"@),
        r.failed_jobs == count_status(statuses.deep_view(), statuses@.len() as int, |s: Seq<char>| s == "failed"@),
        r.running_jobs == count_status(statuses.deep_view(), statuses@.len() as int, |s: Seq<char>| running_status(s)),
        r.completed_jobs + r.failed_jobs + r.running_jobs <= r.total_jobs,
{
    let ghost sv = statuses.deep_view();
    let mut stats = JobAggregateStats::default();
    stats.total_jobs = statuses.len();
    let mut i: usize = 0;
    while i < statuses.len()
        invariant
            i <= statuses@.len(),
            sv == statuses.deep_view(),
            stats.total_jobs == statuses@.len(),
            stats.completed_jobs == count_status(sv, i as int, |s: Seq<char>| s == "completed"@),
            stats.failed_jobs == count_status(sv, i as int, |s: Seq<char>| s == "failed"@),
            stats.running_jobs == count_status(sv, i as int, |s: Seq<char>| running_status(s)),
            stats.completed_jobs <= i,
            stats.failed_jobs <= i,
            stats.running_jobs <= i,
            stats.completed_jobs + stats.failed_jobs + stats.running_jobs <= i,
        decreases statuses.len() - i,
    {
        let s = statuses[i].as_str();
        assert(sv[i as int] == s@);
        proof {
            reveal_strlit("completed");
            reveal_strlit("failed");
            reveal_strlit("running");
            reveal_strlit("in_progress");
        }
        if text_eq(s, "completed") {
            stats.completed_jobs = stats.completed_jobs + 1;
        } else if text_eq(s, "failed") {
            stats.failed_jobs = stats.failed_jobs + 1;
        } else if text_eq(s, "running") || text_eq(s, "in_progress") {
            stats.running_jobs = stats.running_jobs + 1;
        }
        i = i + 1;
    }
    stats
}

} // verus!
