use kix::project::{slugify, ProjectRecord};
use kix::project_service::{
    apply_project_updates, delete_project_result, project_detail, project_from_create,
    project_list, project_stats, CreateProjectData, DeleteProjectOptions, ProjectFilters,
    ProjectSummary, ProjectUpdates,
};
use kix::work_item::WorkItemRecord;

#[test]
fn test_project_summary_from_record() {
    let record = ProjectRecord::new("Test Project");
    let summary = ProjectSummary::from_record(record);
    assert_eq!(summary.name, "Test Project");
    assert!(!summary.archived);
}

#[test]
fn test_project_filters_default() {
    let filters = ProjectFilters::default();
    assert!(!filters.include_archived);
}

#[test]
fn test_slugify() {
    assert_eq!(slugify("Hello World"), "hello-world");
    assert_eq!(slugify("Test 123 Entry"), "test-123-entry");
    assert_eq!(slugify("CAPS and lowercase"), "caps-and-lowercase");
    assert_eq!(slugify("Special!@#$Characters"), "special-characters");
    assert_eq!(slugify("  Hello   World  "), "hello-world");
    assert_eq!(slugify("Test-Project_123"), "test-project-123");
    assert_eq!(slugify("My Cool Project!"), "my-cool-project");
    assert_eq!(slugify("---"), "");
    assert_eq!(slugify("Ünïcode Wörds"), "ünïcode-wörds");
}

#[test]
fn new_projects_get_slugs() {
    let p = ProjectRecord::new("My Cool Project!");
    assert_eq!(p.slug, "my-cool-project");
    assert_eq!(p.archived, 0);
    assert!(!p.is_archived());
    assert_eq!(p.created_at, p.updated_at);
    let p = p.with_description("d").with_color("#3b82f6");
    assert_eq!(p.description.as_deref(), Some("d"));
    assert_eq!(p.color.as_deref(), Some("#3b82f6"));
}

#[test]
fn project_creation_and_updates() {
    let data = CreateProjectData { name: "Alpha Beta".to_string(), description: Some("x".to_string()), color: None };
    let mut p = project_from_create(data);
    assert_eq!(p.slug, "alpha-beta");
    assert_eq!(p.description.as_deref(), Some("x"));
    let updates = ProjectUpdates { name: Some("Gamma".to_string()), archived: Some(true), ..ProjectUpdates::default() };
    apply_project_updates(&mut p, updates, "now".to_string());
    assert_eq!(p.name, "Gamma");
    assert_eq!(p.slug, "alpha-beta");
    assert_eq!(p.archived, 1);
    assert_eq!(p.updated_at, "now");
    let detail = project_detail(p, None);
    assert!(detail.archived);
    assert!(detail.stats.is_none());
}

#[test]
fn project_listing_pages() {
    let projects: Vec<ProjectRecord> = (0..5).map(|i| ProjectRecord::new(&format!("P {}", i))).collect();
    let list = project_list(projects, 1, 2);
    assert_eq!(list.total, 5);
    assert_eq!(list.projects.len(), 2);
    assert_eq!(list.projects[0].name, "P 1");
    assert_eq!(list.projects[1].name, "P 2");
    assert!(list.has_more);
    let projects: Vec<ProjectRecord> = (0..5).map(|i| ProjectRecord::new(&format!("P {}", i))).collect();
    let list = project_list(projects, 4, 10);
    assert_eq!(list.projects.len(), 1);
    assert!(!list.has_more);
    let projects: Vec<ProjectRecord> = (0..2).map(|i| ProjectRecord::new(&format!("P {}", i))).collect();
    let list = project_list(projects, 7, 10);
    assert!(list.projects.is_empty());
}

#[test]
fn project_statistics() {
    let mut closed = WorkItemRecord::new("p", 2, "b");
    closed.state = "closed".to_string();
    let items = vec![WorkItemRecord::new("p", 1, "a"), closed, WorkItemRecord::new("p", 3, "c")];
    let s = project_stats(&items, 4);
    assert_eq!(s.open_items, 2);
    assert_eq!(s.closed_items, 1);
    assert_eq!(s.total_items, 3);
    assert_eq!(s.linked_entries, 4);
    let r = delete_project_result(&DeleteProjectOptions::default(), 3, 2);
    assert_eq!(r.items_deleted, 0);
    assert_eq!(r.entries_unlinked, 2);
    let r = delete_project_result(&DeleteProjectOptions { delete_items: true }, 3, 2);
    assert_eq!(r.items_deleted, 3);
}
