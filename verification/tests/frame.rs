use lz4_bridge::codec::{decoder_has_room, encoder_has_room};
use lz4_bridge::frame::{read_declared_len, PREFIX_LEN};

#[test]
fn prefix_is_four_bytes() {
    assert_eq!(PREFIX_LEN, 4);
}

#[test]
fn declared_len_is_little_endian() {
    assert_eq!(read_declared_len(&[0x78, 0x56, 0x34, 0x12]), Some(0x1234_5678));
    assert_eq!(read_declared_len(&[10, 0, 0, 0]), Some(10));
    assert_eq!(read_declared_len(&[0, 1, 0, 0]), Some(256));
    assert_eq!(read_declared_len(&[0, 0, 1, 0]), Some(65_536));
    assert_eq!(read_declared_len(&[0, 0, 0, 1]), Some(16_777_216));
    assert_eq!(read_declared_len(&[0xFF, 0xFF, 0xFF, 0xFF]), Some(u32::MAX));
    assert_eq!(read_declared_len(&[0, 0, 0, 0]), Some(0));
}

#[test]
fn declared_len_ignores_the_payload() {
    assert_eq!(read_declared_len(&[1, 2, 3, 4, 0xAA, 0xBB]), Some(0x0403_0201));
}

#[test]
fn declared_len_needs_a_whole_prefix() {
    assert_eq!(read_declared_len(&[]), None);
    assert_eq!(read_declared_len(&[1]), None);
    assert_eq!(read_declared_len(&[1, 2]), None);
    assert_eq!(read_declared_len(&[1, 2, 3]), None);
}

#[test]
fn declared_len_agrees_with_std() {
    let mut state: u32 = 1;
    for _ in 0..1000 {
        state = state.wrapping_mul(1_664_525).wrapping_add(1_013_904_223);
        assert_eq!(read_declared_len(&state.to_le_bytes()), Some(state));
    }
}

#[test]
fn encoder_reach() {
    assert!(encoder_has_room(0));
    assert!(encoder_has_room(1));
    assert!(encoder_has_room(16 * 1024 * 1024));
    assert!(!encoder_has_room(usize::MAX));
    let product_limit = (u64::MAX / 110) as u128;
    let size_limit = (isize::MAX as u128 - 24) * 100 / 110 + 1;
    let limit = product_limit.min(size_limit).min(usize::MAX as u128) as usize;
    assert!(encoder_has_room(limit / 2));
    if limit < usize::MAX {
        assert!(!encoder_has_room(limit + 2));
    }
}

#[test]
fn decoder_reach() {
    assert!(!decoder_has_room(0, 0));
    assert!(!decoder_has_room(3, 0));
    assert!(decoder_has_room(4, 0));
    assert!(decoder_has_room(5, 10));
    assert!(decoder_has_room(1 << 20, 1 << 24));
    assert!(!decoder_has_room(usize::MAX, 0));
    assert!(!decoder_has_room(usize::MAX / 255 + 5, 0));
    assert_eq!(decoder_has_room(5, u32::MAX), (u32::MAX as u128) <= isize::MAX as u128);
    let most = (usize::MAX - 19) / 255 + 4;
    assert!(decoder_has_room(most, 0));
    assert!(!decoder_has_room(most + 1, 0));
}
