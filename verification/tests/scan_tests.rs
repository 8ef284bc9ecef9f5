use wasm_host::module_scan::{has_start_section, read_leb128};

fn preamble() -> Vec<u8> {
    vec![0x00, 0x61, 0x73, 0x6d, 0x01, 0x00, 0x00, 0x00]
}

#[test]
fn leb128_single_byte() {
    assert_eq!(read_leb128(&[5], 0), Some((5, 1)));
    assert_eq!(read_leb128(&[127], 0), Some((127, 1)));
}

#[test]
fn leb128_multi_byte() {
    assert_eq!(read_leb128(&[0x80, 0x08], 0), Some((1024, 2)));
    assert_eq!(read_leb128(&[0xe5, 0x8e, 0x26], 0), Some((624485, 3)));
}

#[test]
fn leb128_truncated_is_none() {
    assert_eq!(read_leb128(&[0x80], 0), None);
    assert_eq!(read_leb128(&[], 0), None);
}

#[test]
fn no_sections_has_no_start() {
    assert!(!has_start_section(&preamble()));
}

#[test]
fn short_bytes_have_no_start() {
    assert!(!has_start_section(&[0x00, 0x61, 0x73]));
}

#[test]
fn start_section_is_found() {
    let mut m = preamble();
    // A type section, then a start section naming function 0.
    m.extend_from_slice(&[0x01, 0x04, 0x01, 0x60, 0x00, 0x00]);
    m.extend_from_slice(&[0x08, 0x01, 0x00]);
    assert!(has_start_section(&m));
}

#[test]
fn sections_with_multi_byte_sizes_are_skipped() {
    let mut m = preamble();
    // A custom section whose 200-byte payload needs a two-byte size.
    m.push(0x00);
    m.extend_from_slice(&[0xc8, 0x01]);
    m.extend_from_slice(&[0u8; 200]);
    m.extend_from_slice(&[0x08, 0x01, 0x00]);
    assert!(has_start_section(&m));
}

#[test]
fn truncated_section_reports_no_start() {
    let mut m = preamble();
    // A section that claims more payload than the bytes hold.
    m.extend_from_slice(&[0x01, 0x7f, 0x00]);
    assert!(!has_start_section(&m));
}
