//! Server-sent events: event names, the warning sent to a lagging client,
//! source descriptions, and the admission and expiry rules of the
//! connection manager.
use vstd::prelude::*;

use crate::text::{concat, decimal, own, u64_to_decimal};

verus! {

broadcast use vstd::string::group_string_axioms;

/// What is being indexed.
#[derive(Clone, Debug)]
pub enum SourceType {
    Url { url: String, depth: usize },
    File { path: String },
    Directory { path: String, recursive: bool },
}

/// The kinds of events sent to clients.
#[derive(Clone, Copy, Debug, PartialEq, Eq, Structural)]
pub enum EventKind {
    JobStarted,
    Progress,
    ItemProcessed,
    Error,
    JobCompleted,
    JobCancelled,
    JobHistoryUpdated,
    ItemDiscovered,
    ItemStarted,
    Heartbeat,
}

/// The name of an event kind in the event field of the stream.
pub open spec fn event_kind_name(k: EventKind) -> Seq<char> {
    match k {
        EventKind::JobStarted => "job_started"@,
        EventKind::Progress => "progress"@,
        EventKind::ItemProcessed => "item_processed"@,
        EventKind::Error => "error"@,
        EventKind::JobCompleted => "job_completed"@,
        EventKind::JobCancelled => "job_cancelled"@,
        EventKind::JobHistoryUpdated => "job_history_updated"@,
        EventKind::ItemDiscovered => "item_discovered"@,
        EventKind::ItemStarted => "item_started"@,
        EventKind::Heartbeat => "heartbeat"@,
    }
}

/// The names of the event kinds in the stream.
pub proof fn law_event_kind_names(k: EventKind)
    ensures
        k == EventKind::JobStarted ==> event_kind_name(k) == "job_started"@,
        k == EventKind::Progress ==> event_kind_name(k) == "progress"@,
        k == EventKind::ItemProcessed ==> event_kind_name(k) == "item_processed"@,
        k == EventKind::Error ==> event_kind_name(k) == "error"@,
        k == EventKind::JobCompleted ==> event_kind_name(k) == "job_completed"@,
        k == EventKind::JobCancelled ==> event_kind_name(k) == "job_cancelled"@,
        k == EventKind::JobHistoryUpdated ==> event_kind_name(k) == "job_history_updated"@,
        k == EventKind::ItemDiscovered ==> event_kind_name(k) == "item_discovered"@,
        k == EventKind::ItemStarted ==> event_kind_name(k) == "item_started"@,
        k == EventKind::Heartbeat ==> event_kind_name(k) == "heartbeat"@,
{
}

/// The name of an event kind in the event field of the stream.
pub fn event_type_name(kind: EventKind) -> (r: &'static str)
    ensures
        r@ == event_kind_name(kind),
{
    match kind {
        EventKind::JobStarted => "job_started",
        EventKind::Progress => "progress",
        EventKind::ItemProcessed => "item_processed",
        EventKind::Error => "error",
        EventKind::JobCompleted => "job_completed",
        EventKind::JobCancelled => "job_cancelled",
        EventKind::JobHistoryUpdated => "job_history_updated",
        EventKind::ItemDiscovered => "item_discovered",
        EventKind::ItemStarted => "item_started",
        EventKind::Heartbeat => "heartbeat",
    }
}

/// The data of the warning sent when a client missed `n` events.
pub fn lagged_warning(n: u64) -> (r: String)
    ensures
        r@ == "{\"message\":\"Missed "@ + decimal(n as nat) + " events\"}"@,
{
    let digits = u64_to_decimal(n);
    let a = concat("{\"message\":\"Missed ", digits.as_str());
    concat(a.as_str(), " events\"}")
}

/// A span of time as `std::time::Duration` holds it: whole seconds and the
/// nanoseconds beyond them.
#[derive(Clone, Copy, Debug, PartialEq, Eq, Structural)]
pub struct TimeSpan {
    pub secs: u64,
    pub nanos: u32,
}

impl TimeSpan {
    /// The span in nanoseconds.
    pub open spec fn total_nanos(self) -> int {
        self.secs * 1_000_000_000 + self.nanos
    }

    /// A span of whole seconds (`Duration::from_secs`).
    pub fn from_secs(secs: u64) -> (r: TimeSpan)
        ensures
            r.secs == secs,
            r.nanos == 0,
    {
        TimeSpan { secs, nanos: 0 }
    }

    /// The span in nanoseconds (`Duration::as_nanos`).
    pub fn as_nanos(&self) -> (r: u128)
        ensures
            r == self.total_nanos(),
    {
        assert(self.secs * 1_000_000_000 <= 18_446_744_073_709_551_615 * 1_000_000_000) by (nonlinear_arith)
            requires
                self.secs <= 18_446_744_073_709_551_615u64,
        ;
        (self.secs as u128) * 1_000_000_000 + (self.nanos as u128)
    }
}

/// Limits of the connection manager.
#[derive(Clone, Debug)]
pub struct ConnectionManagerConfig {
    /// Largest number of connections from one address.
    pub max_connections_per_ip: usize,
    /// Largest number of connections in all.
    pub max_total_connections: usize,
    /// Idle time after which a connection is dropped.
    pub connection_timeout: TimeSpan,
    /// Capacity of each broadcast channel.
    pub channel_capacity: usize,
    /// Time between cleanups.
    pub cleanup_interval: TimeSpan,
}

impl Default for ConnectionManagerConfig {
    /// 50 connections per address, 1000 in all, five minutes of idleness,
    /// channels of 1024 events, a cleanup every minute.
    fn default() -> (r: ConnectionManagerConfig)
        ensures
            r.max_connections_per_ip == 50,
            r.max_total_connections == 1000,
            r.connection_timeout == (TimeSpan { secs: 300, nanos: 0 }),
            r.channel_capacity == 1024,
            r.cleanup_interval == (TimeSpan { secs: 60, nanos: 0 }),
    {
        ConnectionManagerConfig {
            max_connections_per_ip: 50,
            max_total_connections: 1000,
            connection_timeout: TimeSpan::from_secs(300),
            channel_capacity: 1024,
            cleanup_interval: TimeSpan::from_secs(60),
        }
    }
}

/// Why a new connection is refused.
#[derive(Clone, Copy, Debug, PartialEq, Eq, Structural)]
pub enum ConnectionRefusal {
    /// The manager holds its largest number of connections.
    MaxConnectionsReached,
    /// The client's address holds its largest number of connections.
    RateLimited,
}

/// Whether a new connection is admitted, given the number of connections
/// in all and from the client's address: the total limit is checked first.
pub fn check_admission(config: &ConnectionManagerConfig, total: usize, from_ip: usize) -> (r: Result<(), ConnectionRefusal>)
    ensures
        total >= config.max_total_connections ==> r == Err::<(), ConnectionRefusal>(
            ConnectionRefusal::MaxConnectionsReached,
        ),
        total < config.max_total_connections && from_ip >= config.max_connections_per_ip ==> r
            == Err::<(), ConnectionRefusal>(ConnectionRefusal::RateLimited),
        total < config.max_total_connections && from_ip < config.max_connections_per_ip ==> r
            is Ok,
{
    if total >= config.max_total_connections {
        return Err(ConnectionRefusal::MaxConnectionsReached);
    }
    if from_ip >= config.max_connections_per_ip {
        return Err(ConnectionRefusal::RateLimited);
    }
    Ok(())
}

/// Whether a connection idle for `idle` is stale: idle for longer than the
/// timeout.
pub fn is_stale(config: &ConnectionManagerConfig, idle: TimeSpan) -> (r: bool)
    ensures
        r == (idle.total_nanos() > config.connection_timeout.total_nanos()),
{
    idle.as_nanos() > config.connection_timeout.as_nanos()
}

} // verus!
