use wasm_host::codec::encode_i32;
use wasm_host::error::HostError;
use wasm_host::memory::LinearMemory;

#[test]
fn new_memory_is_zeroed() {
    let mem = LinearMemory::new(8);
    assert_eq!(mem.size(), 8);
    assert_eq!(mem.get_range(0, 8).unwrap(), vec![0u8; 8]);
}

#[test]
fn set_then_get_range_round_trip() {
    let mut mem = LinearMemory::new(16);
    mem.set(4, &[1, 2, 3]).unwrap();
    assert_eq!(mem.get_range(4, 3).unwrap(), vec![1u8, 2, 3]);
    assert_eq!(mem.get_range(0, 4).unwrap(), vec![0u8; 4]);
    assert_eq!(mem.get_range(7, 9).unwrap(), vec![0u8; 9]);
}

#[test]
fn set_out_of_bounds_fails_without_change() {
    let mut mem = LinearMemory::new(16);
    let r = mem.set(14, &[1, 2, 3]);
    assert!(matches!(r, Err(HostError::OutOfBounds)));
    assert_eq!(mem.get_range(0, 16).unwrap(), vec![0u8; 16]);
}

#[test]
fn get_range_out_of_bounds_fails() {
    let mem = LinearMemory::new(16);
    assert!(matches!(mem.get_range(10, 7), Err(HostError::OutOfBounds)));
    assert!(matches!(mem.get_range(17, 0), Err(HostError::OutOfBounds)));
}

#[test]
fn get_value_i32_decodes_little_endian() {
    let mut mem = LinearMemory::new(16);
    mem.set(4, &encode_i32(-123456)).unwrap();
    assert_eq!(mem.get_value_i32(4).unwrap(), -123456);
    mem.set(0, &[1, 0, 0, 0]).unwrap();
    assert_eq!(mem.get_value_i32(0).unwrap(), 1);
}

#[test]
fn get_value_i32_out_of_bounds_fails() {
    let mem = LinearMemory::new(6);
    assert!(matches!(mem.get_value_i32(3), Err(HostError::OutOfBounds)));
}

#[test]
fn get_value_str_reads_null_terminated_text() {
    let mut mem = LinearMemory::new(16);
    mem.set(2, &[111, 107, 0, 120]).unwrap();
    let w = mem.get_value_str(2).unwrap();
    assert_eq!(w.0, "ok");
}

#[test]
fn get_value_str_reads_to_end_without_nul() {
    let mut mem = LinearMemory::new(4);
    mem.set(0, &[97, 98, 99, 100]).unwrap();
    let w = mem.get_value_str(1).unwrap();
    assert_eq!(w.0, "bcd");
}

#[test]
fn get_value_str_past_end_fails() {
    let mem = LinearMemory::new(4);
    assert!(matches!(mem.get_value_str(5), Err(HostError::OutOfBounds)));
}
