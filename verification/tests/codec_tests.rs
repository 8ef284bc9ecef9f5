use wasm_host::codec::{decode_i32, encode_i32, WasmString};
use wasm_host::error::HostError;

#[test]
fn encode_decode_round_trip_values() {
    for &x in &[0i32, 1, -1, 9, 123456789, i32::MIN, i32::MAX] {
        let b = encode_i32(x);
        assert_eq!(b.len(), 4);
        assert_eq!(decode_i32(&b), x);
    }
}

#[test]
fn encode_is_little_endian() {
    assert_eq!(encode_i32(1), vec![1u8, 0, 0, 0]);
    assert_eq!(encode_i32(-1), vec![0xffu8, 0xff, 0xff, 0xff]);
    assert_eq!(encode_i32(0x0403_0201), vec![1u8, 2, 3, 4]);
}

#[test]
fn decode_encode_round_trip_bytes() {
    let bytes = vec![0xdeu8, 0xad, 0xbe, 0xef];
    let x = decode_i32(&bytes);
    assert_eq!(encode_i32(x), bytes);
}

#[test]
fn string_decode_stops_at_first_nul() {
    let w = WasmString::from_little_endian(&[104, 105, 0, 106, 107]).unwrap();
    assert_eq!(w.0, "hi");
}

#[test]
fn string_decode_without_nul_takes_all_bytes() {
    let w = WasmString::from_little_endian(&[104, 105]).unwrap();
    assert_eq!(w.0, "hi");
}

#[test]
fn string_decode_empty_buffer() {
    let w = WasmString::from_little_endian(&[]).unwrap();
    assert_eq!(w.0, "");
}

#[test]
fn string_decode_leading_nul_is_empty() {
    let w = WasmString::from_little_endian(&[0, 65, 66]).unwrap();
    assert_eq!(w.0, "");
}

#[test]
fn string_decode_invalid_text_is_lossy() {
    let w = WasmString::from_little_endian(&[0xff, 97, 0]).unwrap();
    assert_eq!(w.0, "\u{fffd}a");
}

#[test]
fn string_encode_direction_unsupported() {
    let w = WasmString(String::from("abc"));
    let mut buffer: Vec<u8> = Vec::new();
    let r = w.into_little_endian(&mut buffer);
    assert!(matches!(r, Err(HostError::EncodeUnsupported)));
    assert!(buffer.is_empty());
}
