use kix::entry::{entry_list_query, EntryRecord};
use kix::job::{aggregate_stats, JobItemRecord};
use kix::json::{JsonMember, JsonValue};
use kix::migrations::{db_info, is_duplicate_column, parse_sql_statements};
use kix::page::PageRecord;
use kix::token::{EncryptedTokenData, TokenRecord};

#[test]
fn test_code_block_counting() {
    let content = r#"
# Code Example

```rust
fn main() {
    println!("Hello");
}
```

Some text between.

```python
print("world")
```
"#;

    let page = PageRecord::new("src-1", "https://example.com", content);
    assert_eq!(page.code_block_count, 2);
}

#[test]
fn test_page_record_creation() {
    let page = PageRecord::new("source-123", "https://example.com/page", "# Hello World\n\nSome content here.");

    assert!(!page.page_id.is_empty());
    assert_eq!(page.source_id, "source-123");
    assert_eq!(page.url, "https://example.com/page");
    assert!(page.content_length > 0);
    assert!(!page.content_hash.is_empty());
}

#[test]
fn test_page_record_with_code_blocks() {
    let content = r#"# Example

```rust
fn main() {
    println!("Hello");
}
```

Some text

```python
print("Hello")
```
"#;

    let page = PageRecord::new("source-123", "https://example.com", content);
    assert_eq!(page.code_block_count, 2);
}

#[test]
fn page_hash_length_and_preview() {
    let page = PageRecord::new("s", "u", "abc");
    assert_eq!(page.content_hash, "ba7816bf8f01cfea414140de5dae2223b00361a396177a9cb410ff61f20015ad");
    assert_eq!(page.content_length, 3);
    let p = PageRecord::new("s", "u", "héllo ``` x");
    assert_eq!(p.content_length, 12);
    assert_eq!(p.code_block_count, 0);
    assert_eq!(p.content_preview(3), "hél");
    assert_eq!(p.content_preview(0), "");
    assert_eq!(PageRecord::new("s", "u", "éa").content_preview(2), "éa");
    assert_eq!(PageRecord::new("s", "u", "éa").content_preview(1), "é");
    assert_eq!(p.content_preview(100), "héllo ``` x");
    let p = p.with_title("T").with_crawl_time(1500);
    assert_eq!(p.title.as_deref(), Some("T"));
    assert_eq!(p.crawl_time_ms, Some(1500));
    assert_eq!(PageRecord::new("s", "u", "``````").code_block_count, 1);
    assert_eq!(PageRecord::new("s", "u", "`````").code_block_count, 0);
}

#[test]
fn migration_scripts_split_into_statements() {
    let sql = "-- comment\nCREATE TABLE a (\n  id INTEGER\n);\n\nCREATE TRIGGER t AFTER INSERT ON a\nBEGIN\n  UPDATE a SET id = 1;\nEND;\n-- CREATE note\nINSERT INTO a VALUES (1);;\nSELECT 1";
    let stmts = parse_sql_statements(sql);
    // the statement that starts with a comment line is dropped
    assert_eq!(stmts.len(), 3);
    assert_eq!(stmts[0], "CREATE TABLE a (\n  id INTEGER\n)");
    assert_eq!(stmts[1], "CREATE TRIGGER t AFTER INSERT ON a\nBEGIN\n  UPDATE a SET id = 1;\nEND;");
    assert_eq!(stmts[2], "SELECT 1");
    assert!(parse_sql_statements("").is_empty());
    assert!(parse_sql_statements("-- only a comment\n").is_empty());
    assert_eq!(parse_sql_statements("SELECT 1;\r\nSELECT 2;\r\n"), vec!["SELECT 1".to_string(), "SELECT 2".to_string()]);
}

#[test]
fn duplicate_columns_are_recognised() {
    assert!(is_duplicate_column("error: duplicate column name: x", "alter table a add column x int"));
    assert!(!is_duplicate_column("error: no such table", "ALTER TABLE a ADD COLUMN x"));
    assert!(!is_duplicate_column("duplicate column name", "CREATE TABLE a (x)"));
    let info = db_info(12, 4096, 10);
    assert_eq!(info.table_count, 12);
    assert_eq!(info.total_size_bytes, 40960);
}

#[test]
fn tokens_and_scopes() {
    let g = TokenRecord::global("enc");
    assert!(g.is_global());
    assert!(g.project_id().is_none());
    let p = TokenRecord::for_project("abc", "enc").with_suffix("wxyz").with_format("ghp_");
    assert_eq!(p.scope, "project:abc");
    assert_eq!(p.project_id(), Some("abc"));
    assert!(!p.is_global());
    assert_eq!(p.token_suffix.as_deref(), Some("wxyz"));
    assert_eq!(p.token_format.as_deref(), Some("ghp_"));
    let v = p.with_verification("octocat");
    assert_eq!(v.verified_user.as_deref(), Some("octocat"));
    assert!(v.verified_at.is_some());
    let data = EncryptedTokenData::new("c\"1", "plaintext");
    assert_eq!(data.to_json(), "{\"ciphertext\":\"c\\\"1\",\"nonce\":\"plaintext\"}");
}

#[test]
fn entries_and_their_listing_query() {
    let mut e = EntryRecord::new("id", "My Entry!", "document", "url", "https://a.b/c", "hash");
    assert_eq!(e.slug, "my-entry");
    assert!(e.tags_vec().is_empty());
    e.set_tags(vec!["a".to_string(), "b\"c".to_string()]);
    assert_eq!(e.tags_vec(), vec!["a".to_string(), "b\"c".to_string()]);
    e.collection_ids = Some("not json".to_string());
    assert!(e.collection_ids_vec().is_empty());
    let (q, binds) = entry_list_query(Some("pdf"), Some("x.io"));
    assert_eq!(q, "SELECT * FROM entries WHERE 1=1 AND entry_type = ? AND (source_domain = ? OR source_domain LIKE ?) ORDER BY created_at DESC LIMIT ? OFFSET ?");
    assert_eq!(binds, vec!["pdf".to_string(), "x.io".to_string(), "%.x.io".to_string()]);
    let (q, binds) = entry_list_query(None, None);
    assert_eq!(q, "SELECT * FROM entries WHERE 1=1 ORDER BY created_at DESC LIMIT ? OFFSET ?");
    assert!(binds.is_empty());
}

#[test]
fn job_items_and_statistics() {
    let mut item = JobItemRecord::new_page("job-123", "https://example.com/page");
    assert_eq!(item.status, "pending");
    assert_eq!(item.item_type, "page");
    item.mark_started();
    assert_eq!(item.status, "processing");
    assert!(item.started_at.is_some());
    item.mark_completed(10, 10, 1500);
    assert_eq!(item.status, "completed");
    assert_eq!(item.chunks_created, 10);
    let mut f = JobItemRecord::new_file("job", "/a.md").with_parent("https://x").with_depth(2);
    assert_eq!(f.depth, 2);
    assert_eq!(f.parent_url.as_deref(), Some("https://x"));
    f.mark_error("Connection timeout");
    assert_eq!(f.status, "error");
    assert_eq!(f.error_message.as_deref(), Some("Connection timeout"));
    f.mark_skipped();
    assert_eq!(f.status, "skipped");
    let statuses: Vec<String> = ["completed", "failed", "running", "in_progress", "cancelled", "completed"]
        .iter()
        .map(|s| s.to_string())
        .collect();
    let s = aggregate_stats(&statuses);
    assert_eq!(s.total_jobs, 6);
    assert_eq!(s.completed_jobs, 2);
    assert_eq!(s.failed_jobs, 1);
    assert_eq!(s.running_jobs, 2);
}

#[test]
fn test_page_record_builder_pattern() {
    let meta = JsonValue::Object(vec![JsonMember { key: "key".to_string(), value: JsonValue::Str("value".to_string()) }]);
    let page = PageRecord::new("src", "url", "content")
        .with_title("My Title")
        .with_crawl_time(1500)
        .with_metadata(meta);

    assert_eq!(page.title, Some("My Title".to_string()));
    assert_eq!(page.crawl_time_ms, Some(1500));
    assert!(page.metadata.is_some());
    assert_eq!(page.metadata.as_deref(), Some("{\"key\":\"value\"}"));
}

#[test]
fn test_job_item_record_creation() {
    let item = JobItemRecord::new_page("job-123", "https://example.com/page");

    assert!(!item.item_id.is_empty());
    assert_eq!(item.job_id, "job-123");
    assert_eq!(item.item_path, "https://example.com/page");
    assert_eq!(item.item_type, "page");
    assert_eq!(item.status, "pending");
}

#[test]
fn test_job_item_mark_error() {
    let mut item = JobItemRecord::new_page("job-123", "https://example.com");
    item.mark_error("Connection timeout");

    assert_eq!(item.status, "error");
    assert_eq!(item.error_message, Some("Connection timeout".to_string()));
}

#[test]
fn page_metadata_is_kept_as_compact_json() {
    let meta = JsonValue::Object(vec![
        JsonMember { key: "a".to_string(), value: JsonValue::Array(vec![JsonValue::Int(-3), JsonValue::UInt(7), JsonValue::Null]) },
        JsonMember { key: "b".to_string(), value: JsonValue::Bool(true) },
        JsonMember { key: "c".to_string(), value: JsonValue::Str("x\"y\n".to_string()) },
    ]);
    let page = PageRecord::new("src", "url", "content").with_metadata(meta);
    assert_eq!(page.metadata.as_deref(), Some("{\"a\":[-3,7,null],\"b\":true,\"c\":\"x\\\"y\\n\"}"));
    let empty = PageRecord::new("src", "url", "content").with_metadata(JsonValue::Object(vec![]));
    assert_eq!(empty.metadata.as_deref(), Some("{}"));
}
