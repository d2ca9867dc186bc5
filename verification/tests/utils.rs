use moscope::macho::error::{DecodeError, ErrorKind, Stage};
use moscope::macho::utils::{byte_array_to_string, bytes_to};

#[test]
fn bytes_to_u32_be() {
    let data = [0x12, 0x34, 0x56, 0x78];
    let value: u32 = bytes_to(true, &data).unwrap();
    assert_eq!(value, 0x12345678);
}

#[test]
fn bytes_to_u32_le() {
    let data = [0x78, 0x56, 0x34, 0x12];
    let value: u32 = bytes_to(false, &data).unwrap();
    assert_eq!(value, 0x12345678);
}

#[test]
fn bytes_to_i32_negative_be() {
    let data = [0xFF, 0xFF, 0xFF, 0xFE];
    let value: i32 = bytes_to(true, &data).unwrap();
    assert_eq!(value, -2);
}

#[test]
fn bytes_to_i32_negative_le() {
    let data = [0xFE, 0xFF, 0xFF, 0xFF];
    let value: i32 = bytes_to(false, &data).unwrap();
    assert_eq!(value, -2);
}

#[test]
fn bytes_to_i32_positive_be() {
    let data = [0x12, 0x34, 0x56, 0x78];
    let value: i32 = bytes_to(true, &data).unwrap();
    assert_eq!(value, 0x12345678);
}

#[test]
fn bytes_to_i32_positive_le() {
    let data = [0x78, 0x56, 0x34, 0x12];
    let value: i32 = bytes_to(false, &data).unwrap();
    assert_eq!(value, 0x12345678);
}

#[test]
fn bytes_to_u64_le() {
    let data = [1, 0, 0, 0, 0, 0, 0, 0];
    let value: u64 = bytes_to(false, &data).unwrap();
    assert_eq!(value, 1);
}

#[test]
fn bytes_to_rejects_small_buffer() {
    let data = [0x01, 0x02, 0x03];
    let result: Result<u32, _> = bytes_to(true, &data);
    assert!(result.is_err());
}

#[test]
fn bytes_to_keep_first_slice_only() {
    let data = [0x12, 0x34, 0x56, 0x78, 0x9A, 0xBC, 0xDE, 0xFF, 0xDE, 0xAD, 0xBE, 0xEF];
    let value: u32 = bytes_to(true, &data).unwrap();
    assert_eq!(value, 0x12345678);
    let value: i32 = bytes_to(true, &data).unwrap();
    assert_eq!(value, 0x12345678);
    let value: u64 = bytes_to(true, &data).unwrap();
    assert_eq!(value, 0x12345678_9ABCDEFF);
}

#[test]
fn bytes_to_u64_be() {
    let data = [0, 0, 0, 0, 0, 0, 0, 1];
    let value: u64 = bytes_to(true, &data).unwrap();
    assert_eq!(value, 1);
}

#[test]
fn bytes_to_u16_both_orders() {
    let data = [0xAB, 0xCD];
    let be: u16 = bytes_to(true, &data).unwrap();
    let le: u16 = bytes_to(false, &data).unwrap();
    assert_eq!(be, 0xABCD);
    assert_eq!(le, 0xCDAB);
}

#[test]
fn bytes_to_extremes() {
    let ones = [0xFF; 8];
    assert_eq!(bytes_to::<u32>(true, &ones).unwrap(), u32::MAX);
    assert_eq!(bytes_to::<u64>(false, &ones).unwrap(), u64::MAX);
    assert_eq!(bytes_to::<i32>(true, &ones).unwrap(), -1);
    assert_eq!(bytes_to::<i32>(true, &[0x80, 0, 0, 0]).unwrap(), i32::MIN);
    assert_eq!(bytes_to::<i32>(false, &[0xFF, 0xFF, 0xFF, 0x7F]).unwrap(), i32::MAX);
}

#[test]
fn bytes_to_small_buffer_error_value() {
    let result: Result<u64, DecodeError> = bytes_to(false, &[1, 2, 3, 4, 5, 6, 7]);
    let e = result.unwrap_err();
    assert_eq!(e.kind, ErrorKind::TruncatedRecord);
    assert_eq!(e.stage, Stage::Scalar);
}

#[test]
fn byte_array_to_string_stops_at_first_nul() {
    let mut name = [0u8; 16];
    name[..6].copy_from_slice(b"__TEXT");
    assert_eq!(byte_array_to_string(&name), "__TEXT");
    name[8] = b'x';
    assert_eq!(byte_array_to_string(&name), "__TEXT");
}

#[test]
fn byte_array_to_string_uses_all_sixteen_bytes() {
    let name = *b"__gcc_except_tab";
    assert_eq!(byte_array_to_string(&name), "__gcc_except_tab");
}

#[test]
fn byte_array_to_string_replaces_invalid_utf8() {
    let mut name = [0u8; 16];
    name[0] = b'a';
    name[1] = 0xFF;
    name[2] = b'b';
    assert_eq!(byte_array_to_string(&name), "a\u{FFFD}b");
}

#[test]
fn byte_array_to_string_empty_name() {
    assert_eq!(byte_array_to_string(&[0u8; 16]), "");
}
