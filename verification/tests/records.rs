use kix::job::JobItemRecord;
use kix::page::PageRecord;
use kix::sync::{SyncConflictRecord, SyncHistoryRecord, SyncStateRecord};
use kix::token::TokenRecord;
use kix::work_item::WorkItemRecord;

fn state(status: &str) -> SyncStateRecord {
    SyncStateRecord {
        issue_id: "i".to_string(),
        content_hash: "h".to_string(),
        last_sync_hash: "h".to_string(),
        local_version: 1,
        github_version: None,
        github_etag: None,
        sync_status: status.to_string(),
        last_sync_at: "t".to_string(),
        last_sync_direction: None,
        last_sync_result: None,
        conflict_count: 0,
        created_at: "t".to_string(),
        updated_at: "t".to_string(),
    }
}

#[test]
fn sync_state_predicates() {
    assert!(state("synced").is_synced());
    assert!(!state("synced").is_pending());
    assert!(state("local_ahead").is_local_ahead());
    assert!(state("github_ahead").is_github_ahead());
    assert!(state("conflict").is_conflict());
    assert!(state("pending").is_pending());
    assert!(!state("Synced").is_synced());
}

#[test]
fn sync_conflict_predicates() {
    let mut c = SyncConflictRecord {
        id: "c".to_string(),
        issue_id: "i".to_string(),
        project_id: "p".to_string(),
        detected_at: "t".to_string(),
        conflict_type: "state".to_string(),
        local_snapshot: "{}".to_string(),
        github_snapshot: "{}".to_string(),
        last_common_snapshot: None,
        affected_fields: "[\"title\",\"state\"]".to_string(),
        auto_resolution_attempted: None,
        auto_resolution_result: None,
        manual_resolution: None,
        resolved_at: None,
        resolved_by: None,
    };
    assert!(c.is_state_conflict());
    assert!(!c.is_content_conflict());
    assert!(!c.is_deletion_conflict());
    assert!(!c.is_resolved());
    assert!(!c.auto_resolution_was_attempted());
    assert_eq!(c.affected_fields_vec(), vec!["title".to_string(), "state".to_string()]);
    c.auto_resolution_attempted = Some(0);
    assert!(!c.auto_resolution_was_attempted());
    c.auto_resolution_attempted = Some(2);
    assert!(c.auto_resolution_was_attempted());
    c.resolved_at = Some("later".to_string());
    assert!(c.is_resolved());
    c.affected_fields = "not json".to_string();
    assert!(c.affected_fields_vec().is_empty());
}

#[test]
fn sync_history_predicates() {
    let h = SyncHistoryRecord {
        id: "h".to_string(),
        project_id: "p".to_string(),
        sync_type: "full".to_string(),
        direction: "pull".to_string(),
        started_at: "t".to_string(),
        completed_at: None,
        status: "partial".to_string(),
        stats: None,
        issues_pulled: Some(3),
        issues_pushed: None,
        issues_merged: None,
        conflicts_resolved: None,
        conflicts_failed: None,
        errors: Some("[\"rate limited\"]".to_string()),
    };
    assert!(h.is_partial());
    assert!(!h.is_success());
    assert!(!h.is_running());
    assert!(!h.is_failed());
    assert_eq!(h.errors_vec(), vec!["rate limited".to_string()]);
}

#[test]
fn job_item_predicates() {
    let mut item = JobItemRecord::new_file("job", "/tmp/a.md");
    assert_eq!(item.status, "pending");
    assert!(!item.is_completed());
    item.mark_completed(3, 3, 10);
    assert!(item.is_completed());
    let mut failed = JobItemRecord::new_page("job", "https://x");
    failed.mark_error("boom");
    assert!(failed.is_error());
    let mut skipped = JobItemRecord::new_page("job", "https://y");
    skipped.mark_skipped();
    assert!(skipped.is_skipped());
}

#[test]
fn token_scope_and_parent_predicates() {
    assert!(TokenRecord::for_project("p1", "c").is_project_scoped());
    assert!(!TokenRecord::global("c").is_project_scoped());
    let item = WorkItemRecord::new("p", 1, "child");
    assert!(!item.has_parent());
    assert!(item.with_parent("parent").has_parent());
}

#[test]
fn code_blocks_are_recounted_from_content() {
    let page = PageRecord::new("s", "u", "a ```x``` b ```y``` c ```");
    assert_eq!(page.code_block_count_actual(), 2);
    assert_eq!(page.code_block_count, 2);
    let empty = PageRecord::new("s", "u", "no code");
    assert_eq!(empty.code_block_count_actual(), 0);
}
