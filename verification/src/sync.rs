//! Synchronisation state of issues mirrored on GitHub: how the status
//! moves on local and remote changes, which issues need a sync, and sync
//! statistics.
use vstd::prelude::*;

use crate::json::{read_strings, strings_in};
use crate::text::{opt_view, own, text_eq};

verus! {

broadcast use vstd::string::group_string_axioms;

/// The synchronisation state of an issue.
#[derive(Clone, Debug)]
pub struct SyncStateRecord {
    pub issue_id: String,
    pub content_hash: String,
    pub last_sync_hash: String,
    pub local_version: i64,
    pub github_version: Option<i64>,
    pub github_etag: Option<String>,
    /// `"synced"`, `"local_ahead"`, `"github_ahead"`, `"conflict"` or
    /// `"pending"`.
    pub sync_status: String,
    pub last_sync_at: String,
    pub last_sync_direction: Option<String>,
    pub last_sync_result: Option<String>,
    pub conflict_count: i32,
    pub created_at: String,
    pub updated_at: String,
}

impl SyncStateRecord {
    /// Whether the issue is in sync.
    pub fn is_synced(&self) -> (r: bool)
        ensures
            r == (self.sync_status@ == "synced"@),
    {
        text_eq(self.sync_status.as_str(), "synced")
    }

    /// Whether the local issue has changes GitHub lacks.
    pub fn is_local_ahead(&self) -> (r: bool)
        ensures
            r == (self.sync_status@ == "local_ahead"@),
    {
        text_eq(self.sync_status.as_str(), "local_ahead")
    }

    /// Whether GitHub has changes the local issue lacks.
    pub fn is_github_ahead(&self) -> (r: bool)
        ensures
            r == (self.sync_status@ == "github_ahead"@),
    {
        text_eq(self.sync_status.as_str(), "github_ahead")
    }

    /// Whether both sides changed.
    pub fn is_conflict(&self) -> (r: bool)
        ensures
            r == (self.sync_status@ == "conflict"@),
    {
        text_eq(self.sync_status.as_str(), "conflict")
    }

    /// Whether the first sync is still to come.
    pub fn is_pending(&self) -> (r: bool)
        ensures
            r == (self.sync_status@ == "pending"@),
    {
        text_eq(self.sync_status.as_str(), "pending")
    }
}

/// A conflict found while synchronising an issue.
#[derive(Clone, Debug)]
pub struct SyncConflictRecord {
    pub id: String,
    pub issue_id: String,
    pub project_id: String,
    pub detected_at: String,
    /// `"content"`, `"state"` or `"deletion"`.
    pub conflict_type: String,
    pub local_snapshot: String,
    pub github_snapshot: String,
    pub last_common_snapshot: Option<String>,
    /// JSON array of the names of the fields in conflict.
    pub affected_fields: String,
    pub auto_resolution_attempted: Option<i64>,
    pub auto_resolution_result: Option<String>,
    pub manual_resolution: Option<String>,
    pub resolved_at: Option<String>,
    pub resolved_by: Option<String>,
}

impl SyncConflictRecord {
    /// Whether the conflict was resolved.
    pub fn is_resolved(&self) -> (r: bool)
        ensures
            r == self.resolved_at is Some,
    {
        self.resolved_at.is_some()
    }

    /// Whether both sides changed the content.
    pub fn is_content_conflict(&self) -> (r: bool)
        ensures
            r == (self.conflict_type@ == "content"@),
    {
        text_eq(self.conflict_type.as_str(), "content")
    }

    /// Whether both sides changed the state.
    pub fn is_state_conflict(&self) -> (r: bool)
        ensures
            r == (self.conflict_type@ == "state"@),
    {
        text_eq(self.conflict_type.as_str(), "state")
    }

    /// Whether one side deleted what the other changed.
    pub fn is_deletion_conflict(&self) -> (r: bool)
        ensures
            r == (self.conflict_type@ == "deletion"@),
    {
        text_eq(self.conflict_type.as_str(), "deletion")
    }

    /// The names of the fields in conflict; none when the column does not
    /// hold a JSON array of strings.
    pub fn affected_fields_vec(&self) -> (r: Vec<String>)
        ensures
            r.deep_view() == strings_in(Some(self.affected_fields@)),
    {
        read_strings(&Some(own(self.affected_fields.as_str())))
    }

    /// Whether an automatic resolution was tried (a positive count).
    pub fn auto_resolution_was_attempted(&self) -> (r: bool)
        ensures
            r == match self.auto_resolution_attempted {
                Some(n) => n > 0,
                None => false,
            },
    {
        match self.auto_resolution_attempted {
            Some(n) => n > 0,
            None => false,
        }
    }
}

/// One synchronisation run of a project.
#[derive(Clone, Debug)]
pub struct SyncHistoryRecord {
    pub id: String,
    pub project_id: String,
    pub sync_type: String,
    pub direction: String,
    pub started_at: String,
    pub completed_at: Option<String>,
    /// `"running"`, `"success"`, `"partial"` or `"failed"`.
    pub status: String,
    pub stats: Option<String>,
    pub issues_pulled: Option<i64>,
    pub issues_pushed: Option<i64>,
    pub issues_merged: Option<i64>,
    pub conflicts_resolved: Option<i64>,
    pub conflicts_failed: Option<i64>,
    /// JSON array of error messages.
    pub errors: Option<String>,
}

impl SyncHistoryRecord {
    /// Whether the run is still going.
    pub fn is_running(&self) -> (r: bool)
        ensures
            r == (self.status@ == "running"@),
    {
        text_eq(self.status.as_str(), "running")
    }

    /// Whether the run succeeded.
    pub fn is_success(&self) -> (r: bool)
        ensures
            r == (self.status@ == "success"@),
    {
        text_eq(self.status.as_str(), "success")
    }

    /// Whether the run succeeded in part.
    pub fn is_partial(&self) -> (r: bool)
        ensures
            r == (self.status@ == "partial"@),
    {
        text_eq(self.status.as_str(), "partial")
    }

    /// Whether the run failed.
    pub fn is_failed(&self) -> (r: bool)
        ensures
            r == (self.status@ == "failed"@),
    {
        text_eq(self.status.as_str(), "failed")
    }

    /// The reported errors; none when the column is empty or unreadable.
    pub fn errors_vec(&self) -> (r: Vec<String>)
        ensures
            r.deep_view() == strings_in(opt_view(self.errors)),
    {
        read_strings(&self.errors)
    }
}

/// The synchronisation operations on stored states.
pub struct SyncStateStore;

/// The status after the issue changed locally: a synced issue is ahead
/// locally, one ahead on GitHub is in conflict, any other status stays.
pub open spec fn after_local_change(status: Seq<char>) -> Seq<char> {
    if status == "synced"@ {
        "local_ahead"@
    } else if status == "github_ahead"@ {
        "conflict"@
    } else {
        status
    }
}

/// The status after the issue changed on GitHub: a synced issue is ahead on
/// GitHub, one ahead locally is in conflict, any other status stays.
pub open spec fn after_github_change(status: Seq<char>) -> Seq<char> {
    if status == "synced"@ {
        "github_ahead"@
    } else if status == "local_ahead"@ {
        "conflict"@
    } else {
        status
    }
}

/// How a status moves on a change: a local change takes a synced issue
/// ahead locally and one ahead on GitHub into conflict; a change on GitHub
/// takes a synced issue ahead on GitHub and one ahead locally into
/// conflict; every other status stays.
pub proof fn law_sync_transitions(status: Seq<char>)
    ensures
        status == "synced"@ ==> after_local_change(status) == "local_ahead"@,
        status == "github_ahead"@ ==> after_local_change(status) == "conflict"@,
        status != "synced"@ && status != "github_ahead"@ ==> after_local_change(status) == status,
        status == "synced"@ ==> after_github_change(status) == "github_ahead"@,
        status == "local_ahead"@ ==> after_github_change(status) == "conflict"@,
        status != "synced"@ && status != "local_ahead"@ ==> after_github_change(status) == status,
{
    reveal_strlit("synced");
    reveal_strlit("local_ahead");
    reveal_strlit("github_ahead");
    assert("local_ahead"@.len() != "synced"@.len());
    assert("github_ahead"@.len() != "synced"@.len());
}

/// The status after a local change.
pub fn local_change_status(status: &str) -> (r: String)
    ensures
        r@ == after_local_change(status@),
{
    if text_eq(status, "synced") {
        own("local_ahead")
    } else if text_eq(status, "github_ahead") {
        own("conflict")
    } else {
        own(status)
    }
}

/// The status after a change on GitHub.
pub fn github_change_status(status: &str) -> (r: String)
    ensures
        r@ == after_github_change(status@),
{
    if text_eq(status, "synced") {
        own("github_ahead")
    } else if text_eq(status, "local_ahead") {
        own("conflict")
    } else {
        own(status)
    }
}

/// Changes on both sides, in either order, leave an issue whose status is
/// tracked (synced, ahead on one side, or in conflict) in conflict.
pub proof fn law_changes_on_both_sides_conflict(status: Seq<char>)
    requires
        status == "synced"@ || status == "local_ahead"@ || status == "github_ahead"@ || status
            == "conflict"@,
    ensures
        after_github_change(after_local_change(status)) == "conflict"@,
        after_local_change(after_github_change(status)) == "conflict"@,
{
    reveal_strlit("synced");
    reveal_strlit("local_ahead");
    reveal_strlit("github_ahead");
    reveal_strlit("conflict");
    assert("local_ahead"@.len() != "synced"@.len());
    assert("github_ahead"@.len() != "synced"@.len());
    assert("conflict"@.len() != "synced"@.len());
    assert("local_ahead"@[0] != "github_ahead"@[0]);
    assert("local_ahead"@.len() != "conflict"@.len());
    assert("github_ahead"@.len() != "conflict"@.len());
}

/// A conflict stays a conflict whatever changes come, until it is resolved.
pub proof fn law_conflict_stays(status: Seq<char>)
    requires
        status == "conflict"@,
    ensures
        after_local_change(status) == status,
        after_github_change(status) == status,
{
    reveal_strlit("synced");
    reveal_strlit("local_ahead");
    reveal_strlit("github_ahead");
    reveal_strlit("conflict");
}

/// Further changes on the same side leave the status as it is.
pub proof fn law_same_side_changes_idempotent(status: Seq<char>)
    ensures
        after_local_change(after_local_change(status)) == after_local_change(status),
        after_github_change(after_github_change(status)) == after_github_change(status),
{
    reveal_strlit("synced");
    reveal_strlit("local_ahead");
    reveal_strlit("github_ahead");
    reveal_strlit("conflict");
}

/// The statuses of issues that need a sync.
pub open spec fn needs_sync_status(status: Seq<char>) -> bool {
    status == "local_ahead"@ || status == "github_ahead"@ || status == "conflict"@ || status
        == "pending"@
}

/// Whether an issue with this status needs a sync.
pub fn needs_sync(status: &str) -> (r: bool)
    ensures
        r == needs_sync_status(status@),
{
    text_eq(status, "local_ahead") || text_eq(status, "github_ahead") || text_eq(status, "conflict")
        || text_eq(status, "pending")
}

/// Synchronisation statistics of a project.
#[derive(Clone, Debug)]
pub struct SyncStats {
    pub synced: usize,
    pub local_ahead: usize,
    pub github_ahead: usize,
    pub conflicts: usize,
    pub pending: usize,
}

/// Statistics from the counts per status; each count is taken as a
/// `usize`.
pub fn sync_stats(synced: i64, local_ahead: i64, github_ahead: i64, conflicts: i64, pending: i64) -> (r: SyncStats)
    ensures
        r.synced == synced as usize,
        r.local_ahead == local_ahead as usize,
        r.github_ahead == github_ahead as usize,
        r.conflicts == conflicts as usize,
        r.pending == pending as usize,
{
    SyncStats {
        synced: #[verifier::truncate] (synced as usize),
        local_ahead: #[verifier::truncate] (local_ahead as usize),
        github_ahead: #[verifier::truncate] (github_ahead as usize),
        conflicts: #[verifier::truncate] (conflicts as usize),
        pending: #[verifier::truncate] (pending as usize),
    }
}

/// Counters of one sync run.
#[derive(Clone, Debug)]
pub struct SyncHistoryStats {
    pub issues_pulled: i32,
    pub issues_pushed: i32,
    pub issues_merged: i32,
    pub conflicts_resolved: i32,
    pub conflicts_failed: i32,
}

/// The final status of a sync run: partial when errors were reported,
/// success otherwise.
pub fn history_status(errors: Option<&Vec<String>>) -> (r: &'static str)
    ensures
        r@ == if errors matches Some(e) && e@.len() > 0 {
            "partial"@
        } else {
            "success"@
        },
{
    match errors {
        Some(e) => if e.len() > 0 {
            "partial"
        } else {
            "success"
        },
        None => "success",
    }
}

} // verus!
