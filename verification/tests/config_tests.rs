//! Configuration defaults and event naming.

use dadm_agent::config::{
    CollectorsConfig, FeaturesConfig, LogConfig, RiskConfig, UplinkConfig,
};
use dadm_agent::events::{
    Event, EventKind, FileIntegrityChange, FileIntegrityEvent, NetworkEvent,
    PrivilegeEvent, ProcessEvent,
};

#[test]
fn defaults_match_the_documented_values() {
    let features = FeaturesConfig::default();
    assert_eq!(features.feature_dim, 64);
    assert_eq!(features.window_events, 100);

    let uplink = UplinkConfig::default();
    assert!(!uplink.enabled);
    assert!(uplink.endpoint.is_none());
    assert_eq!(uplink.report_interval_secs, 300);

    let risk = RiskConfig::default();
    assert_eq!(risk.high_threshold, 800_000);
    assert_eq!(risk.medium_threshold, 500_000);

    let collectors = CollectorsConfig::default();
    assert!(collectors.process && collectors.network);
    assert_eq!(collectors.process_interval_secs, 5);
    assert_eq!(collectors.file_interval_secs, 60);

    let log = LogConfig::default();
    assert_eq!(log.level, "info");
    assert!(log.json);
}

#[test]
fn event_kinds_have_fixed_names() {
    let p = EventKind::Process(ProcessEvent {
        pid: 1,
        ppid: None,
        name: "x".into(),
        exe: None,
        cmdline: None,
        uid: None,
        started_at: None,
    });
    assert_eq!(p.name(), "process");
    let n = EventKind::Network(NetworkEvent {
        local_addr: None,
        local_port: None,
        remote_addr: None,
        remote_port: None,
        protocol: "tcp".into(),
        bytes_sent: 0,
        bytes_recv: 0,
        pid: None,
    });
    assert_eq!(n.name(), "network");
    let f = EventKind::FileIntegrity(FileIntegrityEvent {
        path: "/etc/passwd".into(),
        hash_sha256: "00".into(),
        size: 1,
        modified_ts: None,
        event: FileIntegrityChange::Scanned,
    });
    assert_eq!(f.name(), "file_integrity");
    let v = EventKind::Privilege(PrivilegeEvent {
        pid: 1,
        from_uid: 0,
        to_uid: None,
        success: false,
        method: "su".into(),
    });
    assert_eq!(v.name(), "privilege");
}

#[test]
fn fresh_events_carry_uuid_sized_ids() {
    let e = Event::new(
        EventKind::Privilege(PrivilegeEvent {
            pid: 1,
            from_uid: 0,
            to_uid: None,
            success: true,
            method: "setuid".into(),
        }),
        "privilege".to_string(),
    );
    assert_eq!(e.id.len(), 36);
    assert_eq!(e.source, "privilege");
    let e2 = Event::new(
        EventKind::Privilege(PrivilegeEvent {
            pid: 1,
            from_uid: 0,
            to_uid: None,
            success: true,
            method: "setuid".into(),
        }),
        "privilege".to_string(),
    );
    assert_ne!(e.id, e2.id, "fresh events draw distinct ids");
}
