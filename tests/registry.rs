use monitor_bridge::registry::{AlreadyInitialized, Registry, Slot, READY_AGE_MS};

#[test]
fn initialize_twice_first_wins() {
    let mut r: Registry<&str, &str> = Registry::new();
    assert!(!r.is_initialized());
    assert_eq!(r.initialize("report-a", "log-a", 3, 1_000_000), Ok(()));
    assert_eq!(
        r.initialize("report-b", "log-b", 4, 2_000_000),
        Err(AlreadyInitialized { slot: Slot::Report })
    );
    assert!(r.is_initialized());
    assert_eq!(r.report_handle(), Some(&"report-a"));
    assert_eq!(r.log_handle(), Some(&"log-a"));
    assert_eq!(r.config(), 3);
}

#[test]
fn initialize_twice_other_order() {
    let mut r: Registry<&str, &str> = Registry::new();
    assert_eq!(r.initialize("report-b", "log-b", 4, 2_000_000), Ok(()));
    assert_eq!(
        r.initialize("report-a", "log-a", 3, 1_000_000),
        Err(AlreadyInitialized { slot: Slot::Report })
    );
    assert_eq!(r.report_handle(), Some(&"report-b"));
    assert_eq!(r.log_handle(), Some(&"log-b"));
    assert_eq!(r.config(), 4);
}

#[test]
fn initialize_sets_ready_event_in_the_past() {
    let mut r: Registry<u8, u8> = Registry::new();
    assert!(r.last_event().is_none());
    assert_eq!(r.initialize(1, 2, 0, 250_000), Ok(()));
    let e = r.last_event().unwrap();
    assert_eq!(e.label, "Ready");
    assert_eq!(e.timestamp, 250_000 - READY_AGE_MS);
    assert_eq!(e.timestamp, 150_000);
}

#[test]
fn ready_event_clamps_at_clock_origin() {
    let mut r: Registry<u8, u8> = Registry::new();
    assert_eq!(r.initialize(1, 2, 0, 40_000), Ok(()));
    assert_eq!(r.last_event().unwrap().timestamp, 0);
}

#[test]
fn record_event_then_read() {
    let mut r: Registry<u8, u8> = Registry::new();
    assert_eq!(r.initialize(1, 2, 0, 500_000), Ok(()));
    r.record_event("X".to_string(), 500_010);
    let e = r.last_event().unwrap();
    assert_eq!(e.label, "X");
    assert!(e.timestamp >= 500_010);
    assert_eq!(e.timestamp, 500_010);
}

#[test]
fn record_event_timestamps_never_go_back() {
    let mut r: Registry<u8, u8> = Registry::new();
    r.record_event("A".to_string(), 700);
    r.record_event("B".to_string(), 650);
    let e = r.last_event().unwrap();
    assert_eq!(e.label, "B");
    assert_eq!(e.timestamp, 700);
    r.record_event("C".to_string(), 900);
    assert_eq!(r.last_event().unwrap().timestamp, 900);
}

#[test]
fn failed_initialize_keeps_event() {
    let mut r: Registry<u8, u8> = Registry::new();
    assert_eq!(r.initialize(1, 2, 0, 500_000), Ok(()));
    r.record_event("Busy".to_string(), 600_000);
    assert!(r.initialize(3, 4, 5, 700_000).is_err());
    let e = r.last_event().unwrap();
    assert_eq!(e.label, "Busy");
    assert_eq!(e.timestamp, 600_000);
    assert_eq!(r.config(), 0);
}

#[test]
fn thread_identity_round_trip() {
    let mut r: Registry<u8, u8> = Registry::new();
    assert_eq!(r.monitor_thread_id(), 0);
    r.record_thread_identity(4242);
    assert_eq!(r.monitor_thread_id(), 4242);
}
