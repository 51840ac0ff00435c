//! The unified telemetry event: one immutable unit of collected data with
//! a typed kind payload. Timestamps are wall-clock milliseconds since the
//! Unix epoch; identity is the `id` string.

use vstd::prelude::*;

verus! {

#[derive(Clone, Debug)]
pub struct ProcessEvent {
    pub pid: u32,
    pub ppid: Option<u32>,
    pub name: String,
    pub exe: Option<String>,
    pub cmdline: Option<String>,
    pub uid: Option<u32>,
    pub started_at: Option<i64>,
}

#[derive(Clone, Debug)]
pub struct NetworkEvent {
    pub local_addr: Option<String>,
    pub local_port: Option<u16>,
    pub remote_addr: Option<String>,
    pub remote_port: Option<u16>,
    pub protocol: String,
    pub bytes_sent: u64,
    pub bytes_recv: u64,
    pub pid: Option<u32>,
}

#[derive(Clone, Copy, Debug, PartialEq, Eq, Structural)]
pub enum FileIntegrityChange {
    Created,
    Modified,
    Deleted,
    Scanned,
}

#[derive(Clone, Debug)]
pub struct FileIntegrityEvent {
    pub path: String,
    pub hash_sha256: String,
    pub size: u64,
    pub modified_ts: Option<i64>,
    pub event: FileIntegrityChange,
}

#[derive(Clone, Debug)]
pub struct PrivilegeEvent {
    pub pid: u32,
    pub from_uid: u32,
    pub to_uid: Option<u32>,
    pub success: bool,
    pub method: String,
}

/// Closed sum of the event kinds; every consumer matches exhaustively.
#[derive(Clone, Debug)]
pub enum EventKind {
    Process(ProcessEvent),
    Network(NetworkEvent),
    FileIntegrity(FileIntegrityEvent),
    Privilege(PrivilegeEvent),
}

impl EventKind {
    /// The kind's snake-case name, as reported upstream.
    pub fn name(&self) -> (r: &'static str)
        ensures
            (*self matches EventKind::Process(_)) ==> r@ == "process"@,
            (*self matches EventKind::Network(_)) ==> r@ == "network"@,
            (*self matches EventKind::FileIntegrity(_)) ==> r@ == "file_integrity"@,
            (*self matches EventKind::Privilege(_)) ==> r@ == "privilege"@,
    {
        match self {
            EventKind::Process(_) => "process",
            EventKind::Network(_) => "network",
            EventKind::FileIntegrity(_) => "file_integrity",
            EventKind::Privilege(_) => "privilege",
        }
    }
}

#[derive(Clone, Debug)]
pub struct Event {
    pub id: String,
    /// Wall-clock milliseconds since the Unix epoch
    pub ts: i64,
    pub kind: EventKind,
    pub source: String,
}

/// Relies on `uuid::Uuid::new_v4` and its hyphenated `to_string`: a random
/// identifier rendered as 36 characters. Nothing else holds of the value.
#[verifier::external_body]
pub fn fresh_id() -> (r: String)
    ensures
        r@.len() == 36,
{
    uuid::Uuid::new_v4().to_string()
}

/// Relies on `chrono::Utc::now` and `timestamp_millis`: the wall clock in
/// milliseconds. No two calls are related, and nothing holds of the value.
#[verifier::external_body]
pub fn now_millis() -> i64 {
    chrono::Utc::now().timestamp_millis()
}

impl Event {
    /// Assemble an event from given parts.
    pub fn from_parts(id: String, ts: i64, kind: EventKind, source: String) -> (e: Event)
        ensures
            e.id == id,
            e.ts == ts,
            e.kind == kind,
            e.source == source,
    {
        Event { id, ts, kind, source }
    }

    /// A fresh event: a random identifier, the current wall-clock time, and
    /// the given kind and source.
    pub fn new(kind: EventKind, source: String) -> (e: Event)
        ensures
            e.id@.len() == 36,
            e.kind == kind,
            e.source == source,
    {
        let id = fresh_id();
        let ts = now_millis();
        Event::from_parts(id, ts, kind, source)
    }
}

} // verus!
