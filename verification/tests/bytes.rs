use firmware_image::bytes::{
    append, append_zeros, encode_u32, is_all_zero, length_code_of, reversed, same_bytes,
    u32_magnitude, widen, ByteOrder,
};

#[test]
fn encodes_little_endian() {
    assert_eq!(encode_u32(ByteOrder::Little, 0x1234_5678), vec![0x78, 0x56, 0x34, 0x12]);
    assert_eq!(encode_u32(ByteOrder::Little, 0), vec![0, 0, 0, 0]);
    assert_eq!(encode_u32(ByteOrder::Little, 1), vec![1, 0, 0, 0]);
    assert_eq!(encode_u32(ByteOrder::Little, u32::MAX), vec![0xff; 4]);
}

#[test]
fn encodes_big_endian() {
    assert_eq!(encode_u32(ByteOrder::Big, 0x1234_5678), vec![0x12, 0x34, 0x56, 0x78]);
    assert_eq!(encode_u32(ByteOrder::Big, 1), vec![0, 0, 0, 1]);
}

#[test]
fn encoding_agrees_with_std() {
    for x in [0u32, 1, 255, 256, 65535, 65536, 0x00ff_00ff, 0x8000_0000, u32::MAX] {
        assert_eq!(encode_u32(ByteOrder::Little, x), x.to_le_bytes().to_vec());
        assert_eq!(encode_u32(ByteOrder::Big, x), x.to_be_bytes().to_vec());
    }
}

#[test]
fn length_code_keeps_small_lengths() {
    assert_eq!(length_code_of(0), 0);
    assert_eq!(length_code_of(8), 8);
    assert_eq!(length_code_of(0x7fff_ffff), 0x7fff_ffff);
    assert_eq!(length_code_of(0xffff_ffff), 0xffff_ffff);
}

#[test]
fn length_code_is_the_low_32_bits() {
    let len: u64 = 0x1_0000_0005;
    if let Ok(len) = usize::try_from(len) {
        assert_eq!(length_code_of(len), 5);
    }
}

#[test]
fn append_adds_at_the_end() {
    let mut buf = vec![1u8, 2];
    append(&mut buf, &[3, 4, 5]);
    assert_eq!(buf, vec![1, 2, 3, 4, 5]);
    append(&mut buf, &[]);
    assert_eq!(buf, vec![1, 2, 3, 4, 5]);
}

#[test]
fn append_zeros_adds_zero_bytes() {
    let mut buf = vec![9u8];
    append_zeros(&mut buf, 3);
    assert_eq!(buf, vec![9, 0, 0, 0]);
    append_zeros(&mut buf, 0);
    assert_eq!(buf, vec![9, 0, 0, 0]);
}

#[test]
fn all_zero_is_recognised() {
    assert!(is_all_zero(&[]));
    assert!(is_all_zero(&[0]));
    assert!(is_all_zero(&[0, 0, 0]));
    assert!(!is_all_zero(&[0, 1, 0]));
    assert!(!is_all_zero(&[0, 0, 128]));
}

#[test]
fn magnitude_drops_high_zero_bytes() {
    assert_eq!(u32_magnitude(0), vec![0]);
    assert_eq!(u32_magnitude(1), vec![1]);
    assert_eq!(u32_magnitude(255), vec![255]);
    assert_eq!(u32_magnitude(256), vec![0, 1]);
    assert_eq!(u32_magnitude(0x10001), vec![1, 0, 1]);
    assert_eq!(u32_magnitude(u32::MAX), vec![255, 255, 255, 255]);
}

#[test]
fn magnitude_agrees_with_the_big_integer_crate() {
    for x in [0u32, 3, 17, 257, 65537, 0x0100_0000, 0xdead_beef] {
        assert_eq!(u32_magnitude(x), num_bigint_dig::BigUint::from(x).to_bytes_le());
    }
}

#[test]
fn widen_fills_with_high_zero_bytes() {
    assert_eq!(widen(&[7, 8], 4), Some(vec![7, 8, 0, 0]));
    assert_eq!(widen(&[7, 8], 2), Some(vec![7, 8]));
    assert_eq!(widen(&[], 3), Some(vec![0, 0, 0]));
}

#[test]
fn widen_refuses_what_is_longer() {
    assert_eq!(widen(&[7, 8, 9], 2), None);
    assert_eq!(widen(&[0], 0), None);
}

#[test]
fn reversed_turns_the_order_round() {
    assert_eq!(reversed(&[1, 2, 3]), vec![3, 2, 1]);
    assert_eq!(reversed(&[7]), vec![7]);
    assert_eq!(reversed(&[]), Vec::<u8>::new());
}

#[test]
fn same_bytes_compares_length_and_content() {
    assert!(same_bytes(&[], &[]));
    assert!(same_bytes(&[1, 2, 3], &[1, 2, 3]));
    assert!(!same_bytes(&[1, 2, 3], &[1, 2]));
    assert!(!same_bytes(&[1, 2], &[1, 2, 3]));
    assert!(!same_bytes(&[1, 2, 3], &[1, 2, 4]));
    assert!(!same_bytes(&[0, 2, 3], &[1, 2, 3]));
}
