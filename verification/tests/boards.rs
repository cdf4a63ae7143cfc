use kix::board::{board_columns, build_board, sort_summaries, BoardColumn, WorkItemSummary};
use kix::epic::{build_epic_board, compute_epic_assignments, EpicAssignments};
use kix::work_item::WorkItemRecord;

fn item(n: u32, title: &str, kind: &str, column: &str, position: i64) -> WorkItemRecord {
    WorkItemRecord::new("p", n, title)
        .with_item_type(kind)
        .with_board_column(column)
        .with_position(position)
}

#[test]
fn board_columns_have_display_names() {
    let cols = board_columns();
    let names: Vec<&str> = cols.iter().map(|c| c.display_name.as_str()).collect();
    assert_eq!(names, vec!["Backlog", "To Do", "In Progress", "In Review", "Testing", "Done"]);
    assert_eq!(BoardColumn::from_id("archive").display_name, "archive");
}

#[test]
fn board_groups_items_by_type_and_column() {
    let items = vec![
        item(1, "t1", "task", "todo", 3),
        item(2, "t2", "task", "todo", 1),
        item(3, "s1", "story", "done", 0),
        item(4, "x", "chore", "todo", 0),
        item(5, "t3", "task", "archive", 0),
        item(6, "e1", "epic", "backlog", 0),
    ];
    let b = build_board(&items, None);
    assert_eq!(b.columns.len(), 6);
    assert_eq!(b.swimlanes.len(), 5);
    let task_lane = &b.swimlanes[2];
    assert_eq!(task_lane.item_type, "task");
    let todo = &task_lane.items_by_column[1];
    assert_eq!(todo.column, "todo");
    let titles: Vec<&str> = todo.items.iter().map(|s| s.title.as_str()).collect();
    assert_eq!(titles, vec!["t2", "t1"]);
    assert_eq!(b.column_counts[1].count, 2);
    assert_eq!(b.column_counts[5].count, 1);
    assert_eq!(b.column_counts[0].count, 1);
    assert_eq!(b.total_items, 4);
    let filtered = build_board(&items, Some("story"));
    assert_eq!(filtered.total_items, 1);
    assert_eq!(filtered.swimlanes[2].items_by_column[1].items.len(), 0);
}

#[test]
fn sorting_by_position_is_stable() {
    let items = vec![item(1, "a", "task", "todo", 2), item(2, "b", "task", "todo", 1), item(3, "c", "task", "todo", 2)];
    let sums: Vec<WorkItemSummary> = items.iter().map(WorkItemSummary::from_record).collect();
    let sorted = sort_summaries(sums);
    let titles: Vec<&str> = sorted.iter().map(|s| s.title.as_str()).collect();
    assert_eq!(titles, vec!["b", "a", "c"]);
}

#[test]
fn epic_assignments_follow_parent_chains() {
    let epic = item(1, "E", "epic", "backlog", 0);
    let story = item(2, "S", "story", "todo", 0).with_parent(&epic.id);
    let task = item(3, "T", "task", "done", 0).with_parent(&story.id);
    let orphan = item(4, "O", "task", "todo", 0);
    let dangling = item(5, "D", "task", "todo", 0).with_parent("missing");
    let items = vec![epic.clone(), story.clone(), task.clone(), orphan.clone(), dangling.clone()];
    let a = compute_epic_assignments(&items);
    assert_eq!(a.get(&story.id).map(|s| s.as_str()), Some(epic.id.as_str()));
    assert_eq!(a.get(&task.id).map(|s| s.as_str()), Some(epic.id.as_str()));
    assert!(a.get(&orphan.id).is_none());
    assert!(a.get(&dangling.id).is_none());
    assert!(a.get(&epic.id).is_none());
    assert_eq!(a.entries().len(), 2);
}

#[test]
fn epic_board_lanes_and_unassigned() {
    let epic = item(1, "E", "epic", "backlog", 0);
    let mut story = item(2, "S", "story", "todo", 5).with_parent(&epic.id);
    story.story_points = Some(3);
    let mut task = item(3, "T", "task", "todo", 1).with_parent(&story.id);
    task.story_points = Some(2);
    let orphan = item(4, "O", "bug", "done", 0);
    let items = vec![epic.clone(), story.clone(), task.clone(), orphan.clone()];
    let assign = compute_epic_assignments(&items);
    let epics = vec![epic.clone()];
    let board = build_epic_board(&epics, &assign, &items);
    assert_eq!(board.epics.len(), 1);
    let lane = &board.epics[0];
    assert_eq!(lane.epic.title, "E");
    let todo: Vec<&str> = lane.items_by_column[1].items.iter().map(|s| s.title.as_str()).collect();
    assert_eq!(todo, vec!["T", "S"]);
    assert_eq!(lane.stats.total_items, 2);
    assert_eq!(lane.stats.total_story_points, 5);
    assert_eq!(lane.stats.items_by_column[1].count, 2);
    assert_eq!(board.unassigned[5].items.len(), 1);
    assert_eq!(board.column_counts[1].count, 2);
    assert_eq!(board.column_counts[5].count, 1);
    assert_eq!(board.total_items, 3);
}

#[test]
fn assignment_map_replaces_entries() {
    let mut a = EpicAssignments::new();
    a.insert("i1".to_string(), "e1".to_string());
    a.insert("i1".to_string(), "e2".to_string());
    a.insert("i2".to_string(), "e1".to_string());
    assert_eq!(a.get("i1").map(|s| s.as_str()), Some("e2"));
    assert_eq!(a.entries(), vec![("i1".to_string(), "e2".to_string()), ("i2".to_string(), "e1".to_string())]);
}
