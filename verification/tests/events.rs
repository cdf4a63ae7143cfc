use kix::sse::{
    check_admission, event_type_name, is_stale, lagged_warning, ConnectionManagerConfig, TimeSpan,
    ConnectionRefusal, EventKind,
};
use kix::sync::{
    github_change_status, history_status, local_change_status, needs_sync, sync_stats,
};

#[test]
fn event_names() {
    assert_eq!(event_type_name(EventKind::JobStarted), "job_started");
    assert_eq!(event_type_name(EventKind::JobHistoryUpdated), "job_history_updated");
    assert_eq!(event_type_name(EventKind::Heartbeat), "heartbeat");
    assert_eq!(lagged_warning(7), "{\"message\":\"Missed 7 events\"}");
}

#[test]
fn connection_limits() {
    let c = ConnectionManagerConfig::default();
    assert_eq!(c.max_connections_per_ip, 50);
    assert_eq!(c.max_total_connections, 1000);
    assert_eq!(c.connection_timeout, TimeSpan { secs: 300, nanos: 0 });
    assert_eq!(c.channel_capacity, 1024);
    assert_eq!(c.cleanup_interval, TimeSpan { secs: 60, nanos: 0 });
    assert!(check_admission(&c, 999, 49).is_ok());
    assert_eq!(check_admission(&c, 1000, 0), Err(ConnectionRefusal::MaxConnectionsReached));
    assert_eq!(check_admission(&c, 1000, 50), Err(ConnectionRefusal::MaxConnectionsReached));
    assert_eq!(check_admission(&c, 10, 50), Err(ConnectionRefusal::RateLimited));
    assert!(!is_stale(&c, TimeSpan { secs: 300, nanos: 0 }));
    assert!(is_stale(&c, TimeSpan { secs: 300, nanos: 1 }));
    assert!(!is_stale(&c, TimeSpan { secs: 299, nanos: 999_999_999 }));
    let half = ConnectionManagerConfig { connection_timeout: TimeSpan { secs: 0, nanos: 500_000_000 }, ..ConnectionManagerConfig::default() };
    assert!(is_stale(&half, TimeSpan { secs: 0, nanos: 500_000_001 }));
    assert!(!is_stale(&half, TimeSpan { secs: 0, nanos: 500_000_000 }));
    assert_eq!(TimeSpan { secs: 2, nanos: 5 }.as_nanos(), 2_000_000_005);
}

#[test]
fn sync_status_moves() {
    assert_eq!(local_change_status("synced"), "local_ahead");
    assert_eq!(local_change_status("github_ahead"), "conflict");
    assert_eq!(local_change_status("pending"), "pending");
    assert_eq!(github_change_status("synced"), "github_ahead");
    assert_eq!(github_change_status("local_ahead"), "conflict");
    assert_eq!(github_change_status(&local_change_status("synced")), "conflict");
    assert!(needs_sync("conflict"));
    assert!(needs_sync("pending"));
    assert!(!needs_sync("synced"));
    let s = sync_stats(1, 2, 3, 4, 5);
    assert_eq!(s.conflicts, 4);
    assert_eq!(history_status(None), "success");
    assert_eq!(history_status(Some(&vec![])), "success");
    assert_eq!(history_status(Some(&vec!["e".to_string()])), "partial");
}
