use kix::entry::EntryRecord;
use kix::errors::ServiceError;
use kix::page::PageRecord;
use kix::retrieval::{
    chunk_info, document_of, page_context, related_fetch_limit, related_picks, related_query,
    resolve_page_id, source_url, Pagination, QueryFilters, SearchMode,
};
use kix::search::SearchFilters;
use kix::services::paginate;

#[test]
fn test_pagination_defaults() {
    let p = Pagination::new(None, None);
    assert_eq!(p.limit, 10);
    assert_eq!(p.offset, 0);
}

#[test]
fn test_pagination_max_limit() {
    let p = Pagination::new(Some(500), None);
    assert_eq!(p.limit, 100); // Capped at 100
}

#[test]
fn test_query_filters_conversion() {
    let qf = QueryFilters {
        entry_type: Some("document".to_string()),
        tag: Some("rust".to_string()),
        ..Default::default()
    };
    let sf: SearchFilters = qf.into_search_filters();
    assert_eq!(sf.entry_type, Some("document".to_string()));
    assert_eq!(sf.tag, Some("rust".to_string()));
}

#[test]
fn test_search_mode_default() {
    let mode = SearchMode::default();
    assert!(matches!(mode, SearchMode::Hybrid));
}

#[test]
fn paging_of_results() {
    let p = Pagination::new(Some(2), Some(3));
    assert_eq!(p.fetch_limit(), 5);
    let (page, total, more) = paginate(vec![1, 2, 3, 4, 5, 6], p.offset, p.limit);
    assert_eq!(page, vec![4, 5]);
    assert_eq!(total, 6);
    assert!(more);
    let (page, _, more) = paginate(vec![1, 2, 3, 4, 5], 3, 2);
    assert_eq!(page, vec![4, 5]);
    assert!(!more);
    let (page, _, _) = paginate(vec![1, 2], 5, 2);
    assert!(page.is_empty());
}

#[test]
fn page_ids_from_chunks() {
    assert_eq!(resolve_page_id(Some("page-1"), Some("x#2")).ok().unwrap(), "page-1");
    assert_eq!(resolve_page_id(None, Some("entry-9#3")).ok().unwrap(), "entry-9");
    assert_eq!(resolve_page_id(None, Some("plain")).ok().unwrap(), "plain");
    assert_eq!(resolve_page_id(None, Some("a#b#c")).ok().unwrap(), "a");
    match resolve_page_id(None, None) {
        Err(ServiceError::Validation(m)) => assert_eq!(m, "Either page_id or chunk_id must be provided"),
        _ => panic!("expected a validation error"),
    }
}

#[test]
fn documents_and_context() {
    let mut e = EntryRecord::new("e1", "Title", "document", "url", "https://x.io/a", "h");
    e.set_tags(vec!["rust".to_string()]);
    let chunks = vec![chunk_info("e1#0".to_string(), 0, "content".to_string(), "text".to_string())];
    let d = document_of(e, Some(chunks));
    assert_eq!(d.description, "");
    assert_eq!(d.source_url.as_deref(), Some("https://x.io/a"));
    assert_eq!(d.tags, vec!["rust".to_string()]);
    assert_eq!(d.chunks.as_ref().unwrap()[0].chunk_type.as_deref(), Some("content"));
    let page = PageRecord::new("e1", "https://x.io/a", "```a``` text ```b```");
    let ctx = page_context(page);
    assert_eq!(ctx.code_block_count, 2);
    assert_eq!(ctx.content_length, 20);
    assert_eq!(source_url(Some("docs.rs".to_string())).as_deref(), Some("https://docs.rs"));
    assert!(source_url(None).is_none());
}

#[test]
fn related_entries_leave_out_the_entry_itself() {
    let ids: Vec<String> = ["a", "self", "b", "c", "self", "d"].iter().map(|s| s.to_string()).collect();
    assert_eq!(related_picks(&ids, "self", 3), vec![0, 2, 3]);
    assert_eq!(related_picks(&ids, "self", 10), vec![0, 2, 3, 5]);
    assert!(related_picks(&ids, "self", 0).is_empty());
    assert_eq!(related_query("Rust", "A language"), "entries related to Rust A language");
    assert_eq!(related_fetch_limit(5), 6);
}
