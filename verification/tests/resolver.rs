use game_scanner::game_scanner::ScanError;
use game_scanner::resolver::{
    decode_be_u32, decode_be_u64, resolve_address, resolve_scalar, reversed, Hop, MemoryImage,
    OffsetChain,
};

fn image(start: u64, bytes: Vec<u8>) -> MemoryImage {
    MemoryImage { start, bytes }
}

#[test]
fn reversed_flips_byte_order() {
    let v: Vec<u8> = vec![1, 2, 3, 4];
    assert_eq!(reversed(&v), vec![4, 3, 2, 1]);
    let empty: Vec<u8> = vec![];
    assert_eq!(reversed(&empty), Vec::<u8>::new());
}

#[test]
fn decode_big_endian_exact_values() {
    assert_eq!(decode_be_u32(&vec![0x12, 0x34, 0x56, 0x78]), 0x12345678);
    assert_eq!(decode_be_u32(&vec![0, 0, 0, 0x10]), 16);
    assert_eq!(decode_be_u64(&vec![0, 0, 0, 0, 0, 0, 0x20, 0x01]), 0x2001);
    assert_eq!(
        decode_be_u64(&vec![0xFF, 0xFF, 0xFF, 0xFF, 0xFF, 0xFF, 0xFF, 0xFF]),
        u64::MAX
    );
}

#[test]
fn image_read_reverses_little_endian_region() {
    let img = image(0x1000, vec![0x10, 0x00, 0x00, 0x00]);
    let bytes = img.read(0x1000, 4).unwrap();
    assert_eq!(bytes, vec![0x00, 0x00, 0x00, 0x10]);
    assert_eq!(decode_be_u32(&bytes), 16);
}

#[test]
fn byte_order_scenario_final_hop() {
    // Raw little-endian bytes [0x10, 0, 0, 0] at the final hop decode to 16:
    // reversal-then-big-endian-decode equals little-endian-decode of the
    // original bytes.
    let img = image(0x1000, vec![0x10, 0x00, 0x00, 0x00]);
    let chain = OffsetChain::single(0);
    assert_eq!(resolve_scalar(&img, 0x1000, &chain), Ok(16));
}

#[test]
fn scalar_chain_with_offset() {
    // 16 bytes; the scalar 0xDEAD_BEEF sits little-endian at offset 8.
    let mut bytes: Vec<u8> = vec![0; 16];
    bytes[8] = 0xEF;
    bytes[9] = 0xBE;
    bytes[10] = 0xAD;
    bytes[11] = 0xDE;
    let img = image(0x2000, bytes);
    let chain = OffsetChain::single(8);
    assert_eq!(resolve_scalar(&img, 0x2000, &chain), Ok(0xDEADBEEF));
}

#[test]
fn multi_hop_chain_matches_manual_dereference() {
    // Image at 0x1000, 64 bytes.  A pointer at 0x1008 (little-endian)
    // holds 0x1010; the scalar 777 sits at 0x1010 + 4.
    let mut bytes: Vec<u8> = vec![0; 64];
    bytes[8] = 0x10;
    bytes[9] = 0x10;
    // 777 = 0x0309, little-endian at image offset 0x14.
    bytes[0x14] = 0x09;
    bytes[0x15] = 0x03;
    let img = image(0x1000, bytes);
    let chain = OffsetChain {
        hops: vec![
            Hop { offset: 8, read_size: 8 },
            Hop { offset: 4, read_size: 4 },
        ],
    };
    assert_eq!(resolve_scalar(&img, 0x1000, &chain), Ok(777));
}

#[test]
fn pointer_chain_resolves_address() {
    // Two pointer hops: 0x1000 -> (at +0) 0x1008 -> (at +8) 0x4242.
    let mut bytes: Vec<u8> = vec![0; 32];
    bytes[0] = 0x08;
    bytes[1] = 0x10;
    bytes[0x10] = 0x42;
    bytes[0x11] = 0x42;
    let img = image(0x1000, bytes);
    let hops = vec![
        Hop { offset: 0, read_size: 8 },
        Hop { offset: 8, read_size: 8 },
    ];
    assert_eq!(resolve_address(&img, 0x1000, &hops), Ok(0x4242));
}

#[test]
fn read_outside_image_fails() {
    let img = image(0x1000, vec![0; 8]);
    assert_eq!(img.read(0x0FFF, 4), Err(ScanError::MemoryReadError));
    assert_eq!(img.read(0x1005, 4), Err(ScanError::MemoryReadError));
    assert_eq!(img.read(0x2000, 1), Err(ScanError::MemoryReadError));
    assert!(img.read(0x1004, 4).is_ok());
}

#[test]
fn failing_hop_aborts_chain() {
    // The pointer hop lands outside the image: the walk fails whole.
    let mut bytes: Vec<u8> = vec![0; 16];
    bytes[0] = 0x99;
    let img = image(0x1000, bytes);
    let chain = OffsetChain {
        hops: vec![
            Hop { offset: 0, read_size: 8 },
            Hop { offset: 0, read_size: 4 },
        ],
    };
    assert_eq!(resolve_scalar(&img, 0x1000, &chain), Err(ScanError::MemoryReadError));
}

#[test]
fn address_overflow_is_a_read_error() {
    let img = image(0, vec![0; 8]);
    let chain = OffsetChain::single(1);
    assert_eq!(resolve_scalar(&img, u64::MAX, &chain), Err(ScanError::MemoryReadError));
}
