use kix::explorer::{
    classify_query, database_info, format_size, generate_db_id, get_query_templates, index_info,
    is_sqlite_extension, is_valid_identifier, plan_query, pragma_query, row_count_query,
    table_data_query, column_info, DatabaseStatus, DatabaseType, QueryType,
};
use kix::errors::ServiceError;

#[test]
fn test_format_size() {
    assert_eq!(format_size(500), "500 bytes");
    assert_eq!(format_size(1024), "1.0 KB");
    assert_eq!(format_size(1536), "1.5 KB");
    assert_eq!(format_size(1048576), "1.0 MB");
    assert_eq!(format_size(234881024), "224.0 MB");
    assert_eq!(format_size(1073741824), "1.0 GB");
}

#[test]
fn test_classify_query() {
    assert_eq!(classify_query("SELECT * FROM users"), QueryType::Select);
    assert_eq!(classify_query("select id from users"), QueryType::Select);
    assert_eq!(classify_query("WITH cte AS (SELECT 1) SELECT * FROM cte"), QueryType::Select);
    assert_eq!(classify_query("INSERT INTO users VALUES (1)"), QueryType::Insert);
    assert_eq!(classify_query("UPDATE users SET name = 'test'"), QueryType::Update);
    assert_eq!(classify_query("DELETE FROM users"), QueryType::Delete);
    assert_eq!(classify_query("CREATE TABLE test (id INT)"), QueryType::Create);
    assert_eq!(classify_query("DROP TABLE test"), QueryType::Drop);
    assert_eq!(classify_query("ALTER TABLE test ADD col INT"), QueryType::Alter);
    assert_eq!(classify_query("PRAGMA table_info(users)"), QueryType::Other);
}

#[test]
fn test_is_valid_identifier() {
    assert!(is_valid_identifier("users"));
    assert!(is_valid_identifier("user_table"));
    assert!(is_valid_identifier("Users123"));
    assert!(!is_valid_identifier(""));
    assert!(!is_valid_identifier("123users"));
    assert!(!is_valid_identifier("user-table"));
    assert!(!is_valid_identifier("user;table"));
}

#[test]
fn test_generate_db_id() {
    let path1 = "/data/kix.db";
    let path2 = "/data/other.db";

    let id1 = generate_db_id(path1);
    let id2 = generate_db_id(path2);

    assert!(id1.starts_with("db_"));
    assert!(id2.starts_with("db_"));
    assert_ne!(id1, id2);

    // Same path should generate same ID
    assert_eq!(generate_db_id(path1), id1);
}

#[test]
fn test_query_templates() {
    let templates = get_query_templates();
    assert!(!templates.is_empty());

    for template in &templates {
        assert!(!template.id.is_empty());
        assert!(!template.name.is_empty());
        assert!(!template.query.is_empty());
        assert!(!template.category.is_empty());
    }

    assert!(templates.iter().any(|t| t.id == "recent_entries"));
    assert!(templates.iter().any(|t| t.id == "domain_stats"));
}

/// The size text must equal what one-decimal float formatting prints.
fn float_size(bytes: u64) -> String {
    const KB: u64 = 1024;
    const MB: u64 = KB * 1024;
    const GB: u64 = MB * 1024;
    if bytes >= GB {
        format!("{:.1} GB", bytes as f64 / GB as f64)
    } else if bytes >= MB {
        format!("{:.1} MB", bytes as f64 / MB as f64)
    } else if bytes >= KB {
        format!("{:.1} KB", bytes as f64 / KB as f64)
    } else {
        format!("{} bytes", bytes)
    }
}

#[test]
fn format_size_matches_float_formatting() {
    let mut samples: Vec<u64> = vec![
        0, 1, 1023, 1024, 1025, 1075, 1126, 1177, 1280, 1331, 1536, 1587, 2047, 2048, 10240, 10291,
        102348, 1048575, 1048576, 1153433, 1205862, 1258291, 1310720, 1572864, 234881024,
        1073741823, 1073741824, 1181116006, 1288490188, 1342177280, 1610612736, 10737418240,
        u64::MAX, u64::MAX - 1, 1 << 53, (1 << 53) + 1, (1 << 60) + 12345, 9007199254740993,
        18014398509481985, 4503599627370497,
    ];
    // ties at the half step of each unit
    for unit in [1024u64, 1048576, 1073741824] {
        for k in 1..200u64 {
            samples.push(k * unit + unit / 20);
            samples.push(k * unit + unit / 20 - 1);
            samples.push(k * unit + unit / 20 + 1);
            samples.push(k * unit + unit * 3 / 20);
            samples.push(k * unit + unit / 4);
        }
    }
    let mut x: u64 = 0x9E3779B97F4A7C15;
    for _ in 0..20000 {
        x ^= x << 13;
        x ^= x >> 7;
        x ^= x << 17;
        samples.push(x >> (x % 64));
    }
    for b in samples {
        assert_eq!(format_size(b), float_size(b), "bytes = {}", b);
    }
}

#[test]
fn safe_mode_blocks_destructive_queries() {
    match plan_query("DELETE FROM users", None, None, true) {
        Err(ServiceError::Validation(m)) => assert!(m.contains("safe mode")),
        _ => panic!("expected a validation error"),
    }
    match plan_query("DELETE FROM users", None, None, false) {
        Ok((t, q)) => {
            assert_eq!(t, QueryType::Delete);
            assert_eq!(q, "DELETE FROM users");
        }
        _ => panic!("expected a plan"),
    }
}

#[test]
fn select_queries_get_limit_and_offset() {
    match plan_query("SELECT * FROM users;", Some(10), Some(20), true) {
        Ok((t, q)) => {
            assert_eq!(t, QueryType::Select);
            assert_eq!(q, "SELECT * FROM users LIMIT 10 OFFSET 20");
        }
        _ => panic!("expected a plan"),
    }
    match plan_query("SELECT * FROM users LIMIT 5", Some(10), None, true) {
        Ok((_, q)) => assert_eq!(q, "SELECT * FROM users LIMIT 5"),
        _ => panic!("expected a plan"),
    }
}

#[test]
fn table_data_query_validates_names() {
    assert_eq!(table_data_query("users", None, None).ok().unwrap(), "SELECT * FROM \"users\"");
    assert_eq!(
        table_data_query("users", Some("name"), Some("desc")).ok().unwrap(),
        "SELECT * FROM \"users\" ORDER BY \"name\" DESC"
    );
    match table_data_query("user;s", None, None) {
        Err(ServiceError::Validation(m)) => assert_eq!(m, "Invalid table name: user;s"),
        _ => panic!("expected a validation error"),
    }
    match table_data_query("users", Some("a b"), None) {
        Err(ServiceError::Validation(m)) => assert_eq!(m, "Invalid column name: a b"),
        _ => panic!("expected a validation error"),
    }
    match table_data_query("users", Some("name"), Some("sideways")) {
        Err(ServiceError::Validation(m)) => assert_eq!(m, "Order direction must be ASC or DESC"),
        _ => panic!("expected a validation error"),
    }
}

#[test]
fn database_info_describes_the_file() {
    let info = database_info("/data/kix.db", Some("kix.db"), DatabaseType::Sqlite, 1536, None);
    assert_eq!(info.id, generate_db_id("/data/kix.db"));
    assert_eq!(info.name, "kix.db");
    assert_eq!(info.size_display, "1.5 KB");
    assert_eq!(info.status, DatabaseStatus::Available);
    assert!(info.tables.is_none());
    let unnamed = database_info("/", None, DatabaseType::Tantivy, 0, None);
    assert_eq!(unnamed.name, "unknown");
    assert!(is_sqlite_extension(Some("sqlite3")));
    assert!(!is_sqlite_extension(Some("txt")));
    assert!(!is_sqlite_extension(None));
}

#[test]
fn schema_rows_are_read() {
    let c = column_info("id".to_string(), "INTEGER".to_string(), 1, 1, None);
    assert!(!c.nullable);
    assert!(c.primary_key);
    assert!(index_info("sqlite_autoindex_x".to_string(), 1).is_none());
    let ix = index_info("idx_name".to_string(), 1).unwrap();
    assert!(ix.unique);
    assert!(ix.columns.is_empty());
    assert_eq!(pragma_query("table_info", "users"), "PRAGMA table_info('users')");
    assert_eq!(row_count_query("users"), "SELECT COUNT(*) as count FROM 'users'");
}
