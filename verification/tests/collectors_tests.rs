//! Collector state: the watch-path registry and the bounded privilege
//! buffer with its draining snapshot.

use dadm_agent::collectors::{FileIntegrityCollector, PrivilegeCollector};
use dadm_agent::events::{EventKind, PrivilegeEvent};

fn privilege(pid: u32) -> PrivilegeEvent {
    PrivilegeEvent {
        pid,
        from_uid: 1000,
        to_uid: Some(0),
        success: true,
        method: "sudo".to_string(),
    }
}

#[test]
fn watch_paths_accumulate_in_order() {
    let mut c = FileIntegrityCollector::new(60);
    assert!(c.watch_paths().is_empty());
    assert_eq!(c.interval_secs(), 60);
    c.add_path("/tmp".to_string());
    c.add_path("/home/user/.config".to_string());
    assert_eq!(c.watch_paths().len(), 2);
    assert_eq!(c.watch_paths()[0], "/tmp");
    assert_eq!(c.watch_paths()[1], "/home/user/.config");
}

#[test]
fn privilege_buffer_drops_oldest_beyond_capacity() {
    let mut c = PrivilegeCollector::new();
    for pid in 0..1001u32 {
        c.record(privilege(pid));
    }
    let events = c.snapshot();
    assert_eq!(events.len(), 1000);
    // the first recorded event was evicted; pid 1 is now oldest
    match &events[0].kind {
        EventKind::Privilege(p) => assert_eq!(p.pid, 1),
        _ => panic!("expected a privilege event"),
    }
    match &events[999].kind {
        EventKind::Privilege(p) => assert_eq!(p.pid, 1000),
        _ => panic!("expected a privilege event"),
    }
}

#[test]
fn snapshot_drains_and_wraps_events() {
    let mut c = PrivilegeCollector::new();
    c.record(privilege(7));
    let events = c.snapshot();
    assert_eq!(events.len(), 1);
    assert_eq!(events[0].source, "privilege");
    assert_eq!(events[0].id.len(), 36);
    match &events[0].kind {
        EventKind::Privilege(p) => {
            assert_eq!(p.pid, 7);
            assert_eq!(p.method, "sudo");
        },
        _ => panic!("expected a privilege event"),
    }
    assert!(c.snapshot().is_empty());
}
