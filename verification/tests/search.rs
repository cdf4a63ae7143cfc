use kix::entry::EntryRecord;
use kix::search::{
    filters_to_vec_filter, join_strings, numbered_filter_clause, to_sql_clause, PatternSummary,
    SearchFilter, SearchFilters, SearchReindexStats,
};
use kix::vectors::{check_insert_batch, check_query_dim, embedding_dim_from, VectorError};

#[test]
fn search_filter_builders() {
    let f = SearchFilters::new().with_entry_type("document").with_tag("rust");
    assert!(!f.is_empty());
    assert!(SearchFilters::new().is_empty());
    assert_eq!(f.entry_type.as_deref(), Some("document"));
    assert!(filters_to_vec_filter(&SearchFilters::new()).is_none());
    let v = filters_to_vec_filter(&f).unwrap();
    assert_eq!(v.tag.as_deref(), Some("rust"));
    assert!(v.chunk_type.is_none());
}

#[test]
fn vector_filter_sql() {
    let f = SearchFilter::new().with_entry_type("doc").with_source_domain("x.io").with_tag("rs");
    let (clause, params) = to_sql_clause(&f);
    assert_eq!(clause, "m.entry_type = ? AND (m.source_domain = ? OR m.source_domain LIKE ?) AND m.tags LIKE ?");
    assert_eq!(params, vec!["doc".to_string(), "x.io".to_string(), "%.x.io".to_string(), "%rs%".to_string()]);
    assert_eq!(
        numbered_filter_clause(&clause),
        "AND m.entry_type = ?3 AND (m.source_domain = ?4 OR m.source_domain LIKE ?5) AND m.tags LIKE ?6"
    );
    assert_eq!(numbered_filter_clause(""), "");
    let (c, p) = to_sql_clause(&SearchFilter::new());
    assert_eq!(c, "");
    assert!(p.is_empty());
    let (c, _) = to_sql_clause(&SearchFilter::new().with_chunk_type("code"));
    assert_eq!(c, "m.chunk_type = ?");
    assert_eq!(join_strings(&vec!["a".to_string(), "b".to_string(), "c".to_string()], ", "), "a, b, c");
}

#[test]
fn numbering_counts_past_nine() {
    let clause = "? ? ? ? ? ? ? ? ?";
    assert_eq!(numbered_filter_clause(clause), "AND ?3 ?4 ?5 ?6 ?7 ?8 ?9 ?10 ?11");
}

#[test]
fn reindex_statistics() {
    let mut s = SearchReindexStats::default();
    assert_eq!(s.total(), 0);
    assert!(!s.has_errors());
    s.entries_indexed = 3;
    s.pages_indexed = 4;
    s.issues_indexed = 5;
    s.errors.push("Entry x: failed".to_string());
    assert_eq!(s.total(), 12);
    assert!(s.has_errors());
}

#[test]
fn pattern_summaries_of_entries() {
    let mut e = EntryRecord::new("id", "T", "article", "url", "https://a.io/x", "h");
    e.description = Some("desc".to_string());
    e.tags = Some("[\"x\"]".to_string());
    let p = PatternSummary::from_entry(e);
    assert_eq!(p.description, "desc");
    assert_eq!(p.tags, vec!["x".to_string()]);
    assert_eq!(p.source_type.as_deref(), Some("url"));
    assert_eq!(p.source_path.as_deref(), Some("https://a.io/x"));
}

#[test]
fn embedding_sizes() {
    assert_eq!(embedding_dim_from(Some("512"), Some("bge-large")), 512);
    assert_eq!(embedding_dim_from(Some("x"), Some("bge-LARGE-en")), 1024);
    assert_eq!(embedding_dim_from(None, Some("nomic-base")), 768);
    assert_eq!(embedding_dim_from(None, Some("all-MiniLM-L6")), 384);
    assert_eq!(embedding_dim_from(None, Some("e5-small")), 384);
    assert_eq!(embedding_dim_from(None, Some("other")), 768);
    assert_eq!(embedding_dim_from(None, None), 768);
    assert_eq!(embedding_dim_from(Some("+64"), None), 64);
}

#[test]
fn vector_batches_are_checked() {
    assert!(matches!(check_insert_batch(0, &vec![3], 3), Ok(false)));
    assert!(matches!(check_insert_batch(2, &vec![], 3), Ok(false)));
    match check_insert_batch(2, &vec![3], 3) {
        Err(VectorError::Database(m)) => assert_eq!(m, "Chunks (2) and embeddings (1) count mismatch"),
        _ => panic!("expected a count mismatch"),
    }
    match check_insert_batch(3, &vec![3, 4, 5], 3) {
        Err(VectorError::DimensionMismatch { expected, actual }) => {
            assert_eq!(expected, 3);
            assert_eq!(actual, 4);
        }
        _ => panic!("expected a dimension mismatch"),
    }
    assert!(matches!(check_insert_batch(2, &vec![3, 3], 3), Ok(true)));
    assert!(check_query_dim(3, 3).is_ok());
    assert!(matches!(check_query_dim(2, 3), Err(VectorError::DimensionMismatch { expected: 3, actual: 2 })));
}
