use kix::retrieval::{needs_embedding, search_page, uses_full_text, Pagination, SearchMode};
use kix::board::{build_board, sort_summaries, WorkItemSummary};
use kix::epic::{build_epic_board, compute_epic_assignments};
use kix::issue::IssueRecord;
use kix::issue_service::{apply_issue_updates, IssueUpdates};
use kix::project::{slugify, ProjectRecord};
use kix::project_service::{apply_project_updates, ProjectUpdates};
use kix::search::{numbered_filter_clause, to_sql_clause, vector_search_statement, SearchFilter};
use kix::services::{change_event, paginate, ChangeEvent};
use kix::sync::{github_change_status, local_change_status};
use kix::token::TokenRecord;
use kix::work_item::WorkItemRecord;
use kix::work_item_service::{apply_work_item_updates, shift_epic_position, WorkItemUpdates};

fn summary(n: u32, position: i64) -> WorkItemSummary {
    let mut r = WorkItemRecord::new("p", n, &format!("item {}", n));
    r.position = position;
    WorkItemSummary::from_record(&r)
}

#[test]
fn sorting_orders_by_position_and_keeps_every_item() {
    let items = vec![summary(1, 5), summary(2, -1), summary(3, 5), summary(4, 0), summary(5, 3)];
    let sorted = sort_summaries(items.clone());
    let positions: Vec<i64> = sorted.iter().map(|s| s.position).collect();
    assert_eq!(positions, vec![-1, 0, 3, 5, 5]);
    let mut before: Vec<u32> = items.iter().map(|s| s.number).collect();
    let mut after: Vec<u32> = sorted.iter().map(|s| s.number).collect();
    before.sort();
    after.sort();
    assert_eq!(before, after);
    // equal positions keep their order
    let numbers: Vec<u32> = sorted.iter().map(|s| s.number).collect();
    assert_eq!(numbers, vec![2, 4, 5, 1, 3]);
}

#[test]
fn consecutive_pages_join_up() {
    let items: Vec<u32> = (0..10).collect();
    let (a, total, more_a) = paginate(items.clone(), 2, 3);
    let (b, _, more_b) = paginate(items.clone(), 5, 4);
    let (ab, _, _) = paginate(items.clone(), 2, 7);
    assert_eq!(total, 10);
    assert!(more_a);
    assert!(more_b);
    assert_eq!(a, vec![2, 3, 4]);
    let mut joined = a.clone();
    joined.extend(b);
    assert_eq!(joined, ab);
    let (end, _, more_end) = paginate(items, 8, 5);
    assert_eq!(end, vec![8, 9]);
    assert!(!more_end);
}

#[test]
fn reordering_keeps_epic_positions_distinct() {
    // four epics at 0..4; the one at 3 moves to 1
    let moved: Vec<i64> = [0, 1, 2].iter().map(|&p| shift_epic_position(p, 3, 1)).collect();
    let mut all = moved.clone();
    all.push(1);
    all.sort();
    assert_eq!(all, vec![0, 1, 2, 3]);
    // the one at 0 moves to 2
    let moved: Vec<i64> = [1, 2, 3].iter().map(|&p| shift_epic_position(p, 0, 2)).collect();
    assert_eq!(moved, vec![0, 1, 3]);
}

#[test]
fn slugs_are_lowercase_words_joined_by_hyphens() {
    for name in ["Hello World", "--a--b--", "  Ünïcödé Ñame  ", "x", "!!!", "A_B c"] {
        let slug = slugify(name);
        assert!(!slug.starts_with('-'));
        assert!(!slug.ends_with('-'));
        assert!(!slug.contains("--"));
        assert!(slug.chars().all(|c| c == '-' || (c.is_alphanumeric() && !c.is_uppercase())));
    }
    assert_eq!(slugify("!!!"), "");
    assert_eq!(slugify("--a--b--"), "a-b");
}

#[test]
fn project_scope_round_trip() {
    let t = TokenRecord::for_project("abc-123", "cipher");
    assert_eq!(t.scope, "project:abc-123");
    assert_eq!(t.project_id(), Some("abc-123"));
    assert!(!t.is_global());
    let g = TokenRecord::global("cipher");
    assert_eq!(g.project_id(), None);
    assert!(g.is_global());
}

#[test]
fn work_item_updates_are_idempotent_and_read_back() {
    let updates = WorkItemUpdates {
        title: Some("New".to_string()),
        labels: Some(vec!["a".to_string(), "b\"c".to_string()]),
        assignees: Some(vec![]),
        story_points: Some(8),
        ..WorkItemUpdates::default()
    };
    let mut once = WorkItemRecord::new("p", 1, "Old");
    apply_work_item_updates(&mut once, updates.clone(), "t1".to_string());
    let mut twice = once.clone();
    apply_work_item_updates(&mut twice, updates, "t1".to_string());
    assert_eq!(once.title, twice.title);
    assert_eq!(once.labels, twice.labels);
    assert_eq!(once.labels_vec(), vec!["a".to_string(), "b\"c".to_string()]);
    assert_eq!(once.assignees_vec(), Vec::<String>::new());
    assert_eq!(twice.story_points, Some(8));
    assert_eq!(twice.updated_at, "t1");
    // no named field: only the time moves
    let mut item = WorkItemRecord::new("p", 2, "Same");
    let before = item.clone();
    apply_work_item_updates(&mut item, WorkItemUpdates::default(), "t2".to_string());
    assert_eq!(item.title, before.title);
    assert_eq!(item.labels, before.labels);
    assert_eq!(item.board_column, before.board_column);
    assert_eq!(item.updated_at, "t2");
}

#[test]
fn issue_updates_are_idempotent() {
    let updates = IssueUpdates {
        title: None,
        body: Some("text".to_string()),
        state: Some("closed".to_string()),
        labels: Some(vec!["x".to_string()]),
        assignees: None,
    };
    let mut once = IssueRecord::new("p", 3, "Issue");
    apply_issue_updates(&mut once, updates.clone(), "now".to_string());
    let mut twice = once.clone();
    apply_issue_updates(&mut twice, updates, "now".to_string());
    assert_eq!(once.state, "closed");
    assert_eq!(twice.state, "closed");
    assert_eq!(once.body, twice.body);
    assert_eq!(twice.labels_vec(), vec!["x".to_string()]);
    let mut untouched = IssueRecord::new("p", 4, "Quiet");
    let before = untouched.clone();
    apply_issue_updates(
        &mut untouched,
        IssueUpdates { title: None, body: None, state: None, labels: None, assignees: None },
        "later".to_string(),
    );
    assert_eq!(untouched.title, before.title);
    assert_eq!(untouched.state, before.state);
    assert_eq!(untouched.updated_at, "later");
}

#[test]
fn project_updates_keep_identity_and_read_back_archiving() {
    let mut p = ProjectRecord::new("My Project");
    let (id, slug, created) = (p.id.clone(), p.slug.clone(), p.created_at.clone());
    let updates = ProjectUpdates { name: Some("Renamed".to_string()), archived: Some(true), ..ProjectUpdates::default() };
    apply_project_updates(&mut p, updates.clone(), "t".to_string());
    assert_eq!(p.id, id);
    assert_eq!(p.slug, slug);
    assert_eq!(p.slug, "my-project");
    assert_eq!(p.created_at, created);
    assert_eq!(p.name, "Renamed");
    assert!(p.is_archived());
    let again = {
        let mut q = p.clone();
        apply_project_updates(&mut q, updates, "t".to_string());
        q
    };
    assert_eq!(again.name, p.name);
    assert_eq!(again.archived, p.archived);
    apply_project_updates(&mut p, ProjectUpdates { archived: Some(false), ..ProjectUpdates::default() }, "u".to_string());
    assert!(!p.is_archived());
}

#[test]
fn changes_on_both_sides_end_in_conflict() {
    for s in ["synced", "local_ahead", "github_ahead", "conflict"] {
        assert_eq!(github_change_status(&local_change_status(s)), "conflict");
        assert_eq!(local_change_status(&github_change_status(s)), "conflict");
    }
    assert_eq!(local_change_status(&local_change_status("synced")), "local_ahead");
    assert_eq!(github_change_status(&github_change_status("synced")), "github_ahead");
    assert_eq!(local_change_status("conflict"), "conflict");
}

#[test]
fn unchanged_state_is_an_update() {
    assert_eq!(change_event("open", "open"), ChangeEvent::Updated);
    assert_eq!(change_event("closed", "closed"), ChangeEvent::Updated);
    assert_eq!(change_event("open", "closed"), ChangeEvent::Closed);
    assert_eq!(change_event("closed", "open"), ChangeEvent::Reopened);
}

fn placed(n: u32, kind: &str, column: &str) -> WorkItemRecord {
    WorkItemRecord::new("p", n, &format!("w{}", n)).with_item_type(kind).with_board_column(column)
}

#[test]
fn the_board_shows_each_item_once() {
    let items = vec![
        placed(1, "epic", "backlog"),
        placed(2, "task", "done"),
        placed(3, "feature", "todo"),
        placed(4, "story", "archived"),
        placed(5, "bug", "testing"),
        placed(6, "task", "done"),
    ];
    let b = build_board(&items, None);
    assert_eq!(b.total_items, 4);
    let counted: usize = b.column_counts.iter().map(|c| c.count).sum();
    assert_eq!(counted, 4);
    let shown: usize = b.swimlanes.iter().flat_map(|l| l.items_by_column.iter()).map(|c| c.items.len()).sum();
    assert_eq!(shown, 4);
    let only_tasks = build_board(&items, Some("task"));
    assert_eq!(only_tasks.total_items, 2);
}

#[test]
fn the_epic_board_shows_each_item_once() {
    let epic = placed(1, "epic", "backlog");
    let story = placed(2, "story", "todo").with_parent(&epic.id);
    let task = placed(3, "task", "done").with_parent(&story.id);
    let loose = placed(4, "bug", "backlog");
    let odd = placed(5, "task", "weird");
    let items = vec![epic.clone(), story, task, loose, odd];
    let assign = compute_epic_assignments(&items);
    let board = build_epic_board(&vec![epic], &assign, &items);
    assert_eq!(board.total_items, 3);
    assert_eq!(board.epics.len(), 1);
    assert_eq!(board.epics[0].stats.total_items, 2);
    let unassigned: usize = board.unassigned.iter().map(|c| c.items.len()).sum();
    assert_eq!(unassigned, 1);
    // an epic missing from the list hides its items
    let hidden = build_epic_board(&vec![], &assign, &items);
    assert_eq!(hidden.total_items, 1);
}

#[test]
fn filter_placeholders_line_up_with_values() {
    let all = SearchFilter::new().with_entry_type("doc").with_chunk_type("code").with_source_domain("x.io").with_tag("rust");
    let (clause, params) = to_sql_clause(&all);
    assert_eq!(clause.matches('?').count(), params.len());
    assert_eq!(params.len(), 5);
    let numbered = numbered_filter_clause(&clause);
    assert!(numbered.contains("?3") && numbered.contains("?7") && !numbered.contains("?8"));
    let some = SearchFilter::new().with_source_domain("y.org");
    let (clause, params) = to_sql_clause(&some);
    assert_eq!(clause.matches('?').count(), params.len());
    assert_eq!(params, vec!["y.org".to_string(), "%.y.org".to_string()]);
    let (clause, params) = to_sql_clause(&SearchFilter::new());
    assert_eq!(clause, "");
    assert!(params.is_empty());
}

#[test]
fn vector_search_statement_numbers_filter_values_after_the_query() {
    let (plain, values) = vector_search_statement(None);
    assert!(values.is_empty());
    assert!(plain.starts_with("SELECT\n"));
    assert!(plain.contains("WHERE v.embedding MATCH ?1\n            AND v.k = ?2\n            \n            ORDER BY v.distance"));
    let f = SearchFilter::new().with_entry_type("doc").with_tag("rust");
    let (sql, values) = vector_search_statement(Some(&f));
    assert_eq!(values, vec!["doc".to_string(), "%rust%".to_string()]);
    assert!(sql.contains("AND v.k = ?2\n            AND m.entry_type = ?3 AND m.tags LIKE ?4\n            ORDER BY v.distance"));
    assert_eq!(sql.matches('?').count(), 2 + values.len());
}

#[test]
fn vector_table_takes_the_embedding_size() {
    let sql = kix::vectors::vec_table_statement(768);
    assert!(sql.starts_with("CREATE VIRTUAL TABLE IF NOT EXISTS vec_chunks USING vec0("));
    assert!(sql.contains("embedding float[768]"));
    assert!(kix::vectors::vec_table_statement(0).contains("float[0]"));
}

#[test]
fn ascii_slugs_are_fixed_points() {
    for name in ["Hello World", "  Test 123 Entry ", "Special!@#$Characters", "--a--b--", "CAPS and lowercase", "x"] {
        let slug = slugify(name);
        assert_eq!(slugify(&slug), slug);
        assert!(slug.chars().all(|c| c.is_ascii_lowercase() || c.is_ascii_digit() || c == '-'));
    }
}

#[test]
fn classification_ignores_case_and_surrounding_space() {
    for q in ["select * from t", "With x as (select 1) select * from x", "delete from t", "pragma x"] {
        let t = kix::explorer::classify_query(q);
        assert_eq!(kix::explorer::classify_query(&q.to_uppercase()), t);
        assert_eq!(kix::explorer::classify_query(&q.to_lowercase()), t);
        assert_eq!(kix::explorer::classify_query(&format!(" \t{}\n", q)), t);
    }
}

#[test]
fn valid_identifiers_cannot_leave_their_quotes() {
    for bad in ["a\"b", "a'b", "a;b", "a-b", "a b", "1abc", "", "a`b"] {
        assert!(!kix::explorer::is_valid_identifier(bad), "{}", bad);
    }
    assert!(kix::explorer::is_valid_identifier("work_items_2"));
}

#[test]
fn comment_lines_do_not_change_the_statements() {
    let with = "-- first\nCREATE TABLE a (x INT);\n  -- note\nINSERT INTO a VALUES (1);\n";
    let without = "CREATE TABLE a (x INT);\nINSERT INTO a VALUES (1);\n";
    let a = kix::migrations::parse_sql_statements(with);
    assert_eq!(a, kix::migrations::parse_sql_statements(without));
    assert_eq!(a, vec!["CREATE TABLE a (x INT)".to_string(), "INSERT INTO a VALUES (1)".to_string()]);
    assert!(a.iter().all(|s| !s.is_empty()));
}

#[test]
fn statements_are_never_empty_and_only_triggers_keep_semicolons() {
    let sql = "CREATE TABLE a (x);\nCREATE TRIGGER t AFTER INSERT ON a BEGIN\n  UPDATE a SET x = 1;\nEND;\nSELECT 1;;\n;\n";
    let stmts = kix::migrations::parse_sql_statements(sql);
    assert_eq!(
        stmts,
        vec![
            "CREATE TABLE a (x)".to_string(),
            "CREATE TRIGGER t AFTER INSERT ON a BEGIN\n  UPDATE a SET x = 1;\nEND;".to_string(),
            "SELECT 1".to_string(),
        ]
    );
    for s in &stmts {
        assert!(!s.is_empty());
        if s.ends_with(';') {
            assert!(s.to_uppercase().contains("CREATE TRIGGER"));
        }
    }
    let open = kix::migrations::parse_sql_statements("create trigger t\n;\n");
    assert_eq!(open, vec!["create trigger t\n".to_string()]);
}

#[test]
fn different_database_paths_get_different_ids() {
    let a = kix::explorer::generate_db_id("/data/one.db");
    let b = kix::explorer::generate_db_id("/data/two.db");
    assert_ne!(a, b);
    assert_eq!(a, kix::explorer::generate_db_id("/data/one.db"));
    assert!(a.starts_with("db_") && a[3..].chars().all(|c| c.is_ascii_hexdigit() && !c.is_ascii_uppercase()));
}

#[test]
fn slugs_are_their_own_slugs() {
    for s in ["hello-world", "a1-b2-c3", "x", ""] {
        assert_eq!(slugify(s), s);
    }
    let once = slugify("Special!@#$Characters and  MORE");
    assert_eq!(slugify(&once), once);
}

#[test]
fn identifiers_with_any_white_space_are_refused() {
    for bad in ["a\u{00A0}b", "a\u{3000}b", "a\u{2028}b", "a\tb"] {
        assert!(!kix::explorer::is_valid_identifier(bad), "{:?}", bad);
    }
}

#[test]
fn comment_lines_do_not_change_the_statements_of_the_rejoined_text() {
    let sql = "-- header\nCREATE TABLE a (x INT);\n   -- note\nCREATE TRIGGER t AFTER INSERT ON a BEGIN\n  -- inside\n  UPDATE a SET x = 1;\nEND;\n-- CREATE stays\nSELECT 1;\n";
    let kept: Vec<&str> = sql.lines().filter(|l| !(l.trim().starts_with("--") && !l.trim().contains("CREATE"))).collect();
    let rejoined = kept.join("\n");
    assert_eq!(kix::migrations::parse_sql_statements(sql), kix::migrations::parse_sql_statements(&rejoined));
}

#[test]
fn timestamps_are_rfc3339_in_utc() {
    let page = kix::page::PageRecord::new("s", "u", "c");
    let t = page.created_at.as_str();
    assert!(t.ends_with("+00:00"), "{}", t);
    assert_eq!(&t[10..11], "T");
    assert_eq!(&t[4..5], "-");
    let frac = t.len() - 25;
    assert!(frac == 0 || frac == 4 || frac == 7 || frac == 10, "{}", t);
}

#[test]
fn search_pages_follow_the_pagination() {
    assert!(!needs_embedding(SearchMode::Text));
    assert!(needs_embedding(SearchMode::Vector) && needs_embedding(SearchMode::Hybrid));
    assert!(uses_full_text(SearchMode::Text) && uses_full_text(SearchMode::Hybrid));
    assert!(!uses_full_text(SearchMode::Vector));
    let p = Pagination::new(Some(2), Some(1));
    let page = search_page(vec![10, 20, 30, 40, 50], "q", &p);
    assert_eq!(page.results, vec![20, 30]);
    assert_eq!(page.total_count, 5);
    assert!(page.has_more);
    assert_eq!(page.query, "q");
    let last = search_page(vec![10, 20, 30], "q", &p);
    assert_eq!(last.results, vec![20, 30]);
    assert!(!last.has_more);
}
