use kix::errors::ServiceError;
use kix::knowledge::{unlink_outcome, LinkResult, LinkedEntryFilters, ProjectSearchOptions};

#[test]
fn test_project_search_options_default() {
    let opts = ProjectSearchOptions::default();
    assert!(opts.search_type.is_none());
    assert!(!opts.include_closed);
    assert_eq!(opts.limit, 0);
}

#[test]
fn test_link_result() {
    let result = LinkResult {
        link_id: "link-123".to_string(),
        project_id: "project-1".to_string(),
        entry_id: "entry-1".to_string(),
    };
    assert!(!result.link_id.is_empty());
}

#[test]
fn unlinking_reports_missing_links() {
    assert!(unlink_outcome(true, "entry-1").is_ok());
    match unlink_outcome(false, "entry-1") {
        Err(ServiceError::NotFound(m)) => assert_eq!(m, "Link 'entry-1' not found"),
        _ => panic!("expected not found"),
    }
    assert!(LinkedEntryFilters::default().entry_type.is_none());
}
