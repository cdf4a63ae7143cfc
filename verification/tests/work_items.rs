use kix::board::WorkItemSummary;
use kix::services::{change_event, parse_item_ref, ChangeEvent, ItemRef};
use kix::work_item::WorkItemRecord;
use kix::work_item_service::{
    apply_work_item_updates, column_counts_from, move_card_to, move_position, work_item_from_create,
    work_item_list, CreateWorkItemData, WorkItemFilters, WorkItemUpdates,
};

#[test]
fn test_work_item_summary_from_record() {
    let record = WorkItemRecord::new("project-1", 1, "Test Item");
    let summary = WorkItemSummary::from_record(&record);
    assert_eq!(summary.title, "Test Item");
    assert_eq!(summary.number, 1);
    assert_eq!(summary.state, "open");
}

#[test]
fn test_work_item_filters_default() {
    let filters = WorkItemFilters::default();
    assert!(filters.state.is_none());
    assert!(filters.labels.is_none());
}

#[test]
fn test_create_work_item_data() {
    let data = CreateWorkItemData {
        title: "New Item".to_string(),
        body: Some("Description".to_string()),
        labels: Some(vec!["bug".to_string()]),
        assignees: None,
        item_type: Some("task".to_string()),
        parent_id: None,
        board_column: None,
        story_points: None,
        epic_color: None,
    };
    assert_eq!(data.title, "New Item");
    assert!(data.body.is_some());
}

#[test]
fn items_built_from_creation_data() {
    let data = CreateWorkItemData {
        title: "Story".to_string(),
        body: None,
        labels: None,
        assignees: Some(vec!["al".to_string()]),
        item_type: Some("story".to_string()),
        parent_id: Some("epic-1".to_string()),
        board_column: Some("todo".to_string()),
        story_points: Some(5),
        epic_color: None,
    };
    let item = work_item_from_create("p", 4, data);
    assert_eq!(item.item_type, "story");
    assert_eq!(item.board_column, "todo");
    assert_eq!(item.parent_id.as_deref(), Some("epic-1"));
    assert_eq!(item.story_points, Some(5));
    assert_eq!(item.assignees_vec(), vec!["al".to_string()]);
    assert!(item.labels.is_none());
    assert_eq!(item.position, 0);
    assert_eq!(item.number, 4);
    let plain = work_item_from_create(
        "p",
        5,
        CreateWorkItemData {
            title: "T".to_string(),
            body: None,
            labels: None,
            assignees: None,
            item_type: None,
            parent_id: None,
            board_column: None,
            story_points: None,
            epic_color: None,
        },
    );
    assert_eq!(plain.item_type, "task");
    assert_eq!(plain.board_column, "backlog");
}

#[test]
fn updates_and_moves() {
    let mut item = WorkItemRecord::new("p", 1, "a");
    let u = WorkItemUpdates { state: Some("closed".to_string()), story_points: Some(3), ..WorkItemUpdates::default() };
    apply_work_item_updates(&mut item, u, "t1".to_string());
    assert_eq!(item.state, "closed");
    assert_eq!(item.story_points, Some(3));
    assert_eq!(item.title, "a");
    assert_eq!(item.updated_at, "t1");
    move_card_to(&mut item, "done", 7, "t2".to_string());
    assert_eq!(item.board_column, "done");
    assert_eq!(item.position, 7);
    assert_eq!(move_position(Some(2), Some(9)), 2);
    assert_eq!(move_position(None, Some(9)), 10);
    assert_eq!(move_position(None, None), 0);
}

#[test]
fn item_references_and_events() {
    assert!(matches!(parse_item_ref("42"), ItemRef::Number(42)));
    assert!(matches!(parse_item_ref("+7"), ItemRef::Number(7)));
    match parse_item_ref("abc-123") {
        ItemRef::Id(s) => assert_eq!(s, "abc-123"),
        _ => panic!("expected an identifier"),
    }
    match parse_item_ref("99999999999") {
        ItemRef::Id(s) => assert_eq!(s, "99999999999"),
        _ => panic!("expected an identifier"),
    }
    assert_eq!(change_event("open", "closed"), ChangeEvent::Closed);
    assert_eq!(change_event("closed", "open"), ChangeEvent::Reopened);
    assert_eq!(change_event("open", "open"), ChangeEvent::Updated);
    assert_eq!(change_event("closed", "closed"), ChangeEvent::Updated);
}

#[test]
fn listing_and_column_counts() {
    let items = vec![WorkItemRecord::new("p", 1, "a")];
    let l = work_item_list(&items, 1);
    assert!(l.has_more);
    assert_eq!(l.total, 1);
    let rows = vec![("todo".to_string(), 3i64), ("done".to_string(), 2), ("todo".to_string(), 4)];
    let c = column_counts_from(&rows);
    assert_eq!(c.total, 6);
    assert_eq!(c.counts.len(), 2);
    assert_eq!(c.counts[0].column, "done");
    assert_eq!(c.counts[1].count, 4);
}
