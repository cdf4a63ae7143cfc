use kix::issue::{IssueRecord, IssueSummary};
use kix::issue_service::{
    apply_github_answer, apply_issue_updates, close_on_github, create_issue_result,
    create_on_github, github_configured, issue_from_create, issue_from_github_create, issue_list,
    update_on_github, CreateIssueData, DeleteIssueOptions, GithubIssue, IssueFilters,
    IssueOptions, IssueUpdates, created_issue_after_github, deletion_after_github, github_failure,
    updated_issue_after_github,
};
use kix::errors::ServiceError;

#[test]
fn test_issue_summary_from_record() {
    let record = IssueRecord::new("project-1", 1, "Test Issue");
    let summary = IssueSummary::from_record(&record);
    assert_eq!(summary.title, "Test Issue");
    assert_eq!(summary.number, 1);
    assert_eq!(summary.state, "open");
}

#[test]
fn test_issue_filters_default() {
    let filters = IssueFilters::default();
    assert!(filters.state.is_none());
    assert!(filters.labels.is_none());
}

#[test]
fn test_create_issue_data() {
    let data = CreateIssueData {
        title: "New Issue".to_string(),
        body: Some("Description".to_string()),
        labels: Some(vec!["bug".to_string()]),
        assignees: None,
    };
    assert_eq!(data.title, "New Issue");
    assert!(data.body.is_some());
}

fn sample_data() -> CreateIssueData {
    CreateIssueData {
        title: "New Issue".to_string(),
        body: Some("Description".to_string()),
        labels: Some(vec!["bug".to_string(), "ui".to_string()]),
        assignees: Some(vec!["alice".to_string()]),
    }
}

#[test]
fn local_issue_from_data() {
    let issue = issue_from_create("project-1", 7, sample_data());
    assert_eq!(issue.number, 7);
    assert_eq!(issue.source, "local");
    assert_eq!(issue.body.as_deref(), Some("Description"));
    assert_eq!(issue.labels_vec(), vec!["bug".to_string(), "ui".to_string()]);
    assert_eq!(issue.labels.as_deref(), Some("[\"bug\",\"ui\"]"));
    assert_eq!(issue.assignees_vec(), vec!["alice".to_string()]);
    assert!(issue.is_open());
    assert!(!issue.is_github());
    assert_eq!(issue.id.len(), 36);
    let r = create_issue_result(&issue, 7);
    assert_eq!(r.number, 7);
    assert!(r.github_number.is_none());
}

#[test]
fn github_issue_from_data() {
    let issue = issue_from_github_create("project-1", sample_data(), 42, "NODE", "https://github.com/o/r/issues/42");
    assert!(issue.is_github());
    assert_eq!(issue.github_number, Some(42));
    assert_eq!(issue.number, 42);
    let r = create_issue_result(&issue, 42);
    assert_eq!(r.github_number, Some(42));
    assert_eq!(r.github_url.as_deref(), Some("https://github.com/o/r/issues/42"));
}

#[test]
fn issue_updates_apply() {
    let mut issue = IssueRecord::new("p", 1, "Old");
    let before_id = issue.id.clone();
    let updates = IssueUpdates {
        title: Some("New".to_string()),
        state: Some("closed".to_string()),
        labels: Some(vec!["x".to_string()]),
        ..IssueUpdates::default()
    };
    apply_issue_updates(&mut issue, updates, "2024-01-02T00:00:00Z".to_string());
    assert_eq!(issue.title, "New");
    assert_eq!(issue.state, "closed");
    assert_eq!(issue.labels_vec(), vec!["x".to_string()]);
    assert_eq!(issue.updated_at, "2024-01-02T00:00:00Z");
    assert_eq!(issue.id, before_id);
    assert!(issue.body.is_none());
    let gh = GithubIssue {
        number: 3,
        node_id: "N".to_string(),
        html_url: "u".to_string(),
        title: "From GitHub".to_string(),
        body: None,
        state: "open".to_string(),
        labels: vec![],
        assignees: vec!["bob".to_string()],
    };
    apply_github_answer(&mut issue, gh, "t2".to_string());
    assert_eq!(issue.title, "From GitHub");
    assert_eq!(issue.state, "open");
    assert!(issue.labels_vec().is_empty());
    assert_eq!(issue.assignees_vec(), vec!["bob".to_string()]);
}

#[test]
fn github_push_decisions() {
    let push = IssueOptions { push_to_github: true };
    assert!(github_configured("owner", "repo"));
    assert!(!github_configured("", "repo"));
    assert!(create_on_github("owner", "repo", true, &push));
    assert!(!create_on_github("owner", "repo", false, &push));
    assert!(!create_on_github("owner", "repo", true, &IssueOptions::default()));
    assert!(update_on_github("owner", "repo", Some(3), true, &push));
    assert!(!update_on_github("owner", "repo", None, true, &push));
    let close = DeleteIssueOptions { close_on_github: true };
    assert!(close_on_github("o", "r", Some(1), true, &close));
    assert!(!close_on_github("o", "", Some(1), true, &close));
}

#[test]
fn issue_listing() {
    let issues = vec![IssueRecord::new("p", 1, "a").with_priority(1), IssueRecord::new("p", 2, "b")];
    let list = issue_list(&issues, 2);
    assert_eq!(list.total, 2);
    assert!(list.has_more);
    assert_eq!(list.issues[0].priority.as_deref(), Some("critical"));
    assert!(list.issues[1].priority.is_none());
    assert!(!issue_list(&issues, 3).has_more);
}

fn gh_answer() -> GithubIssue {
    GithubIssue {
        number: 42,
        node_id: "I_42".to_string(),
        html_url: "https://github.com/o/r/issues/42".to_string(),
        title: "From GitHub".to_string(),
        body: None,
        state: "closed".to_string(),
        labels: vec!["gh".to_string()],
        assignees: vec![],
    }
}

#[test]
fn github_first_creation_fails_when_github_refuses() {
    match created_issue_after_github("p", sample_data(), Err("rate limited".to_string())) {
        Err(ServiceError::External(m)) => assert_eq!(m, "Failed to create on GitHub: rate limited"),
        other => panic!("unexpected {:?}", other),
    }
    let issue = created_issue_after_github("p", sample_data(), Ok(gh_answer())).unwrap();
    assert_eq!(issue.number, 42);
    assert_eq!(issue.github_number, Some(42));
    assert_eq!(issue.source, "github");
    assert_eq!(issue.title, "New Issue");
    match github_failure("get token", "none") {
        ServiceError::External(m) => assert_eq!(m, "Failed to get token: none"),
        other => panic!("unexpected {:?}", other),
    }
}

#[test]
fn github_first_update_and_close() {
    let mut issue = IssueRecord::new("p", 1, "Local");
    let before = issue.clone();
    let r = updated_issue_after_github(&mut issue, Err("gone".to_string()), "t".to_string());
    assert!(matches!(r, Err(ServiceError::External(ref m)) if m == "Failed to update on GitHub: gone"));
    assert_eq!(issue.title, before.title);
    assert_eq!(issue.updated_at, before.updated_at);
    updated_issue_after_github(&mut issue, Ok(gh_answer()), "t".to_string()).unwrap();
    assert_eq!(issue.title, "From GitHub");
    assert_eq!(issue.state, "closed");
    assert_eq!(issue.labels_vec(), vec!["gh".to_string()]);
    assert!(!deletion_after_github(None).unwrap().github_closed);
    assert!(deletion_after_github(Some(Ok(()))).unwrap().github_closed);
    assert!(matches!(
        deletion_after_github(Some(Err("no".to_string()))),
        Err(ServiceError::External(ref m)) if m == "Failed to close on GitHub: no"
    ));
}
