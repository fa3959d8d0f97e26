use game_scanner::file_manager::FileManager;
use game_scanner::game_scanner::{ScanError, Scanner};
use game_scanner::memory_scanner::read_memory;
use game_scanner::resolver::MemoryImage;
use game_scanner::watcher::WatcherInput;

/// An image whose region starts at `wallet` and holds the three little-endian
/// currency scalars at the scanner's fixed offsets.
fn put_le_u32(bytes: &mut Vec<u8>, offset: usize, value: u32) {
    let le: [u8; 4] = value.to_le_bytes();
    bytes[offset] = le[0];
    bytes[offset + 1] = le[1];
    bytes[offset + 2] = le[2];
    bytes[offset + 3] = le[3];
}

fn wallet_image(wallet: u64, gil: u32, mgp: u32, seals: u32) -> MemoryImage {
    let mut bytes: Vec<u8> = vec![0; 0x208];
    put_le_u32(&mut bytes, 0xC, gil);
    put_le_u32(&mut bytes, 0x204, mgp);
    put_le_u32(&mut bytes, 0x7C, seals);
    MemoryImage { start: wallet, bytes }
}

fn attach(scanner: &mut Scanner, wallet: u64) {
    scanner.apply_watcher_input(&WatcherInput::Found {
        process_id: 77,
        base_address: 0x0001_0000,
        wallet_address: wallet,
    });
}

#[test]
fn new_scanner_is_detached_with_fixed_offsets() {
    let s = Scanner::new();
    assert!(!s.attached());
    assert_eq!(s.gil_offset, 0xC);
    assert_eq!(s.mgp_offset, 0x204);
    assert_eq!(s.company_seals_offset, 0x7C);
}

#[test]
fn get_currency_while_detached_fails_not_attached() {
    let s = Scanner::new();
    let mut fm = FileManager::new();
    assert_eq!(s.get_currency(&mut fm, 123), Err(ScanError::NotAttached));
    // Nothing was read and nothing was persisted.
    assert_eq!(fm.load_all().len(), 0);
}

#[test]
fn scan_image_while_detached_fails_not_attached() {
    let s = Scanner::new();
    let img = wallet_image(0x5000, 1, 2, 3);
    let mut fm = FileManager::new();
    assert_eq!(s.scan_image(&img, &mut fm, 9), Err(ScanError::NotAttached));
    assert_eq!(fm.load_all().len(), 0);
}

#[test]
fn scan_image_reads_all_three_currencies() {
    let wallet: u64 = 0x5000;
    let mut scanner = Scanner::new();
    attach(&mut scanner, wallet);
    let img = wallet_image(wallet, 123_456, 9_000, 42);
    let mut fm = FileManager::new();
    let result = scanner.scan_image(&img, &mut fm, 1_700_000_000_000).unwrap();
    assert_eq!(result.gil, 123_456);
    assert_eq!(result.mgp, 9_000);
    assert_eq!(result.company_seals, 42);
    assert_eq!(result.timestamp, 1_700_000_000_000);
    // The completed result was handed to the log, bit for bit.
    let log = fm.load_all();
    assert_eq!(log.len(), 1);
    assert_eq!(log[0], result);
}

#[test]
fn failed_scan_persists_nothing() {
    // The image is too small for the mgp chain: gil resolves, mgp fails,
    // and no partial result is produced or persisted.
    let wallet: u64 = 0x5000;
    let mut scanner = Scanner::new();
    attach(&mut scanner, wallet);
    let img = MemoryImage { start: wallet, bytes: vec![0; 0x100] };
    let mut fm = FileManager::new();
    assert_eq!(
        scanner.scan_image(&img, &mut fm, 5),
        Err(ScanError::MemoryReadError)
    );
    assert_eq!(fm.load_all().len(), 0);
}

#[test]
fn interleaved_scans_and_detaches() {
    // The watcher flips the attached flag between queries: each query
    // independently yields either a whole result or a well-formed error,
    // and the log grows only on success.
    let wallet: u64 = 0x9000;
    let mut scanner = Scanner::new();
    let img = wallet_image(wallet, 10, 20, 30);
    let mut fm = FileManager::new();

    assert_eq!(scanner.scan_image(&img, &mut fm, 1), Err(ScanError::NotAttached));

    attach(&mut scanner, wallet);
    let first = scanner.scan_image(&img, &mut fm, 2).unwrap();
    assert_eq!((first.gil, first.mgp, first.company_seals), (10, 20, 30));

    scanner.apply_watcher_input(&WatcherInput::Exited);
    assert!(!scanner.attached());
    assert_eq!(scanner.scan_image(&img, &mut fm, 3), Err(ScanError::NotAttached));

    attach(&mut scanner, wallet);
    let second = scanner.scan_image(&img, &mut fm, 4).unwrap();

    let log = fm.load_all();
    assert_eq!(log.len(), 2);
    assert_eq!(log[0], first);
    assert_eq!(log[1], second);
}

#[test]
fn live_read_of_a_dead_process_fails_without_panicking() {
    // No such process: the OS read fails and the error is one of the
    // reader's two errors, never NotAttached.
    let r = read_memory(u32::MAX, 0x1000, 4);
    match r {
        Ok(_) => panic!("reading a nonexistent process cannot succeed"),
        Err(e) => assert_ne!(e, ScanError::NotAttached),
    }
}

#[test]
fn live_get_gil_on_fresh_scanner_fails_cleanly() {
    let s = Scanner::new();
    assert!(s.get_gil().is_err());
    assert!(s.get_mgp().is_err());
    assert!(s.get_company_seals().is_err());
}
