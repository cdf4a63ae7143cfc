use kix::errors::ServiceError;
use kix::indexing::{
    is_terminal_state, parse_job_id, DeleteResult, DeleteTarget, SyncIndexOptions, UrlIndexConfig,
};

#[test]
fn test_delete_target_variants() {
    let single = DeleteTarget::Single("doc-1".to_string());
    let multiple = DeleteTarget::Multiple(vec!["doc-1".to_string(), "doc-2".to_string()]);
    let tag = DeleteTarget::Tag("my-tag".to_string());
    let domain = DeleteTarget::Domain("example.com".to_string());

    match single {
        DeleteTarget::Single(id) => assert_eq!(id, "doc-1"),
        _ => panic!("Expected Single"),
    }

    match multiple {
        DeleteTarget::Multiple(ids) => assert_eq!(ids.len(), 2),
        _ => panic!("Expected Multiple"),
    }

    match tag {
        DeleteTarget::Tag(t) => assert_eq!(t, "my-tag"),
        _ => panic!("Expected Tag"),
    }

    match domain {
        DeleteTarget::Domain(d) => assert_eq!(d, "example.com"),
        _ => panic!("Expected Domain"),
    }
}

#[test]
fn test_delete_result() {
    let result = DeleteResult { deleted: 5, ids: vec!["a".to_string(), "b".to_string()], dry_run: false };
    assert_eq!(result.deleted, 5);
    assert!(!result.dry_run);
}

#[test]
fn test_url_index_config_default() {
    let config = UrlIndexConfig::default();
    assert_eq!(config.depth, 1);
    assert!(config.respect_robots);
    assert!(config.render_js);
}

#[test]
fn test_parse_job_id() {
    let valid = parse_job_id("550e8400-e29b-41d4-a716-446655440000");
    assert!(valid.is_ok());

    let invalid = parse_job_id("not-a-uuid");
    assert!(invalid.is_err());
}

#[test]
fn test_is_terminal_state() {
    assert!(is_terminal_state("completed"));
    assert!(is_terminal_state("failed"));
    assert!(is_terminal_state("cancelled"));
    assert!(!is_terminal_state("running"));
    assert!(!is_terminal_state("pending"));
}

#[test]
fn job_ids_in_other_uuid_forms() {
    assert!(parse_job_id("550e8400e29b41d4a716446655440000").is_ok());
    assert!(parse_job_id("{550e8400-e29b-41d4-a716-446655440000}").is_ok());
    assert!(parse_job_id("urn:uuid:550e8400-e29b-41d4-a716-446655440000").is_ok());
    match parse_job_id("not-a-uuid") {
        Err(ServiceError::Validation(m)) => assert_eq!(m, "Invalid job ID format: not-a-uuid"),
        _ => panic!("expected a validation error"),
    }
    assert_eq!(parse_job_id("550e8400-e29b-41d4-a716-446655440000").ok().unwrap(), "550e8400-e29b-41d4-a716-446655440000");
}

#[test]
fn index_config_defaults() {
    let c = UrlIndexConfig::default();
    assert_eq!(c.timeout_secs, 30);
    assert_eq!(c.max_pages, 0);
    assert_eq!(c.priority, Some(5));
    assert!(c.url.is_empty());
    let o = SyncIndexOptions::default();
    assert!(o.id.is_none() && !o.replace);
}
