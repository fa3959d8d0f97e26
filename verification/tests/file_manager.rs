use game_scanner::file_manager::FileManager;
use game_scanner::game_scanner::{EventCode, ScanError, ScanEvent, ScanResult};

#[test]
fn empty_log_loads_nothing() {
    let fm = FileManager::new();
    assert_eq!(fm.load_all(), Vec::<ScanResult>::new());
}

#[test]
fn round_trip_returns_records_in_append_order() {
    let a = ScanResult { gil: 1, mgp: 2, company_seals: 3, timestamp: 4 };
    let b = ScanResult { gil: u32::MAX, mgp: 0, company_seals: 7, timestamp: u64::MAX };
    let c = ScanResult { gil: 5, mgp: 5, company_seals: 5, timestamp: 5 };
    let mut fm = FileManager::new();
    fm.append(&a);
    fm.append(&b);
    fm.append(&c);
    let log = fm.load_all();
    assert_eq!(log, vec![a, b, c]);
    // Each field comes back bit-identical.
    assert_eq!(log[1].gil, u32::MAX);
    assert_eq!(log[1].timestamp, u64::MAX);
}

#[test]
fn duplicate_records_are_kept_in_order() {
    let a = ScanResult { gil: 9, mgp: 9, company_seals: 9, timestamp: 9 };
    let mut fm = FileManager::new();
    fm.append(&a);
    fm.append(&a);
    assert_eq!(fm.load_all(), vec![a, a]);
}

#[test]
fn scan_result_new_is_zeroed() {
    let r = ScanResult::new();
    assert_eq!(r, ScanResult { gil: 0, mgp: 0, company_seals: 0, timestamp: 0 });
}

#[test]
fn error_codes_and_descriptions() {
    assert_eq!(ScanError::HandleConversionError.code(), "HandleConversionError");
    assert_eq!(ScanError::NotAttached.code(), "NotAttached");
    assert_eq!(ScanError::MemoryReadError.code(), "MemoryReadError");
    assert_eq!(
        ScanError::HandleConversionError.description(),
        "Could not convert process id to valid handle"
    );
    assert_eq!(ScanError::NotAttached.description(), "Not attached to the game process");
    assert_eq!(
        ScanError::MemoryReadError.description(),
        "Failed to read memory at requested location"
    );
}

#[test]
fn lifecycle_events_carry_code_and_description() {
    let up = ScanEvent::game_connected();
    assert_eq!(up.code, EventCode::GameConnected);
    assert_eq!(up.description, "Game client found.");
    let down = ScanEvent::game_disconnected();
    assert_eq!(down.code, EventCode::GameDisconnected);
    assert_eq!(down.description, "Game client lost.");
}
