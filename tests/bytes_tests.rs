use blockchainlib::{difficulty_bytes_as_u128, now, u128_bytes, u32_bytes, u64_bytes};

#[test]
fn test_u32_bytes_conversion() {
    let val: u32 = 0x12345678;
    let bytes = u32_bytes(&val);
    assert_eq!(bytes, [0x78, 0x56, 0x34, 0x12]);
}

#[test]
fn test_u32_bytes_zero() {
    let val: u32 = 0;
    let bytes = u32_bytes(&val);
    assert_eq!(bytes, [0, 0, 0, 0]);
}

#[test]
fn test_u32_bytes_max() {
    let val: u32 = u32::MAX;
    let bytes = u32_bytes(&val);
    assert_eq!(bytes, [0xFF, 0xFF, 0xFF, 0xFF]);
}

#[test]
fn test_u64_bytes_conversion() {
    let val: u64 = 0x123456789ABCDEF0;
    let bytes = u64_bytes(&val);
    assert_eq!(bytes, [0xF0, 0xDE, 0xBC, 0x9A, 0x78, 0x56, 0x34, 0x12]);
}

#[test]
fn test_u64_bytes_zero() {
    let val: u64 = 0;
    let bytes = u64_bytes(&val);
    assert_eq!(bytes, [0, 0, 0, 0, 0, 0, 0, 0]);
}

#[test]
fn test_u64_bytes_max() {
    let val: u64 = u64::MAX;
    let bytes = u64_bytes(&val);
    assert_eq!(bytes, [0xFF, 0xFF, 0xFF, 0xFF, 0xFF, 0xFF, 0xFF, 0xFF]);
}

#[test]
fn test_u128_bytes_conversion() {
    let val: u128 = 0x0F0E0D0C0B0A09080706050403020100;
    let bytes = u128_bytes(&val);
    assert_eq!(
        bytes,
        [
            0x00, 0x01, 0x02, 0x03, 0x04, 0x05, 0x06, 0x07, 0x08, 0x09, 0x0A, 0x0B, 0x0C, 0x0D,
            0x0E, 0x0F
        ]
    );
}

#[test]
fn test_u128_bytes_zero() {
    let val: u128 = 0;
    let bytes = u128_bytes(&val);
    assert_eq!(bytes, [0; 16]);
}

#[test]
fn test_u128_bytes_max() {
    let val: u128 = u128::MAX;
    let bytes = u128_bytes(&val);
    assert_eq!(bytes, [0xFF; 16]);
}

#[test]
fn test_difficulty_bytes_as_u128() {
    let mut v = vec![0u8; 32];
    v[16] = 0x00;
    v[17] = 0x01;
    v[18] = 0x02;
    v[19] = 0x03;
    v[20] = 0x04;
    v[21] = 0x05;
    v[22] = 0x06;
    v[23] = 0x07;
    v[24] = 0x08;
    v[25] = 0x09;
    v[26] = 0x0A;
    v[27] = 0x0B;
    v[28] = 0x0C;
    v[29] = 0x0D;
    v[30] = 0x0E;
    v[31] = 0x0F;

    let result = difficulty_bytes_as_u128(&v);
    let expected: u128 = 0x0F0E0D0C0B0A09080706050403020100;
    assert_eq!(result, expected);
}

#[test]
fn test_difficulty_bytes_all_zeros() {
    let v = vec![0u8; 32];
    let result = difficulty_bytes_as_u128(&v);
    assert_eq!(result, 0);
}

#[test]
fn test_difficulty_bytes_all_ones() {
    let v = vec![0xFFu8; 32];
    let result = difficulty_bytes_as_u128(&v);
    assert_eq!(result, u128::MAX);
}

#[test]
fn difficulty_bytes_ignore_first_half() {
    let mut v = vec![0xFFu8; 16];
    v.extend(vec![0u8; 16]);
    v[16] = 7;
    assert_eq!(difficulty_bytes_as_u128(&v), 7);
}

#[test]
fn test_now_returns_reasonable_timestamp() {
    let timestamp = now();
    assert!(timestamp > 1577836800000);
    assert!(timestamp < 4102444800000);
}

#[test]
fn test_byte_conversion_round_trip_u32() {
    let original: u32 = 0xDEADBEEF;
    let bytes = u32_bytes(&original);
    let reconstructed = (bytes[0] as u32)
        | ((bytes[1] as u32) << 8)
        | ((bytes[2] as u32) << 16)
        | ((bytes[3] as u32) << 24);
    assert_eq!(original, reconstructed);
}

#[test]
fn test_byte_conversion_round_trip_u64() {
    let original: u64 = 0xDEADBEEFCAFEBABE;
    let bytes = u64_bytes(&original);
    let reconstructed = (bytes[0] as u64)
        | ((bytes[1] as u64) << 8)
        | ((bytes[2] as u64) << 16)
        | ((bytes[3] as u64) << 24)
        | ((bytes[4] as u64) << 32)
        | ((bytes[5] as u64) << 40)
        | ((bytes[6] as u64) << 48)
        | ((bytes[7] as u64) << 56);
    assert_eq!(original, reconstructed);
}
