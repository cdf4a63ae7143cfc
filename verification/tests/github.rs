use kix::github::{
    access_result, global_token_status, project_token_status, repo_paging, repos_have_more,
    token_usable, ProjectTokenKind, RepoSearchQuery, TokenScope, TokenStatus, VerifyAccessResult,
};

#[test]
fn test_token_scope() {
    let global = TokenScope::Global;
    let project = TokenScope::Project("project-1".to_string());

    match global {
        TokenScope::Global => (),
        _ => panic!("Expected Global"),
    }

    match project {
        TokenScope::Project(id) => assert_eq!(id, "project-1"),
        _ => panic!("Expected Project"),
    }
}

#[test]
fn test_token_status() {
    let status = TokenStatus {
        has_token: true,
        token_type: "global".to_string(),
        token_suffix: Some("abc123".to_string()),
        verified_user: Some("testuser".to_string()),
    };
    assert!(status.has_token);
    assert_eq!(status.token_type, "global");
}

#[test]
fn test_repo_search_query_default() {
    let query = RepoSearchQuery::default();
    assert!(query.owner.is_empty());
    assert!(query.search.is_none());
}

#[test]
fn test_verify_access_result() {
    let result = VerifyAccessResult { has_access: true, can_push: true, can_pull: true };
    assert!(result.has_access);
}

#[test]
fn token_status_rules() {
    let s = global_token_status(false, Some("abcd".to_string()), Some("me".to_string()));
    assert!(!s.has_token);
    assert!(s.token_suffix.is_none());
    let s = global_token_status(true, Some("abcd".to_string()), None);
    assert_eq!(s.token_suffix.as_deref(), Some("abcd"));
    assert_eq!(project_token_status(ProjectTokenKind::NotConfigured).token_type, "not_configured");
    let p = project_token_status(ProjectTokenKind::UsingGlobal);
    assert!(p.has_token);
    assert_eq!(p.token_type, "global_fallback");
    assert_eq!(project_token_status(ProjectTokenKind::ProjectSpecific).token_type, "project_specific");
    assert!(token_usable(Some(ProjectTokenKind::ProjectSpecific)));
    assert!(!token_usable(Some(ProjectTokenKind::NotConfigured)));
    assert!(!token_usable(None));
}

#[test]
fn repository_paging() {
    let q = RepoSearchQuery::default();
    assert_eq!(repo_paging(&q), (50, 1));
    let q = RepoSearchQuery { owner: "o".to_string(), search: None, page: Some(3), per_page: Some(10) };
    assert_eq!(repo_paging(&q), (10, 3));
    assert!(repos_have_more(31, 3, 10));
    assert!(!repos_have_more(30, 3, 10));
    let denied = access_result(None);
    assert!(!denied.has_access && !denied.can_push && !denied.can_pull);
    let ok = access_result(Some(true));
    assert!(ok.has_access && ok.can_push && ok.can_pull);
}
