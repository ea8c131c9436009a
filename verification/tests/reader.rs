use drm_trust::reader::{ReadError, Reader};

#[test]
fn read_integers() {
    let data = [0x00, 0x01, 0x02, 0x03, 0x04, 0x05, 0x06, 0x07];
    let mut r = Reader::new(&data);
    assert_eq!(r.read_u16be().unwrap(), 0x0001);
    assert_eq!(r.read_u32be().unwrap(), 0x02030405);
    assert_eq!(r.remaining(), 2);
}

#[test]
fn read_le_integers() {
    let data = [0x01, 0x00, 0x04, 0x03, 0x02, 0x01];
    let mut r = Reader::new(&data);
    assert_eq!(r.read_u16le().unwrap(), 0x0001);
    assert_eq!(r.read_u32le().unwrap(), 0x01020304);
}

#[test]
fn read_array_fixed() {
    let data = [0xAA, 0xBB, 0xCC, 0xDD];
    let mut r = Reader::new(&data);
    let arr: [u8; 4] = r.read_array().unwrap();
    assert_eq!(arr, [0xAA, 0xBB, 0xCC, 0xDD]);
    assert_eq!(r.remaining(), 0);
}

#[test]
fn read_past_end() {
    let data = [0x00, 0x01];
    let mut r = Reader::new(&data);
    assert!(r.read_u32be().is_err());
}

#[test]
fn position_tracking() {
    let data = [0; 16];
    let mut r = Reader::new(&data);
    assert_eq!(r.position(), 0);
    r.read_bytes(5).unwrap();
    assert_eq!(r.position(), 5);
    assert_eq!(r.remaining(), 11);
}

#[test]
fn read_padded_string_aligned() {
    // "abc" + null + padding to align to 4
    let data = [b'a', b'b', b'c', 0x00];
    let mut r = Reader::new(&data);
    let s = r.read_padded_string(4).unwrap();
    assert_eq!(s, "abc");
}

#[test]
fn read_padded_string_needs_padding() {
    // raw_len=3, aligned=4 -> reads 4 bytes
    let data = [b'h', b'i', 0x00, 0x00, 0xFF];
    let mut r = Reader::new(&data);
    let s = r.read_padded_string(3).unwrap();
    assert_eq!(s, "hi");
    assert_eq!(r.position(), 4);
}

#[test]
fn read_past_end_reports_offsets() {
    let data = [0x00, 0x01, 0x02];
    let mut r = Reader::new(&data);
    r.read_bytes(1).unwrap();
    assert_eq!(r.read_u32be(), Err(ReadError { needed: 5, have: 3 }));
    assert_eq!(r.position(), 1);
    assert_eq!(r.ensure(2), Ok(()));
    assert_eq!(r.ensure(3), Err(ReadError { needed: 4, have: 3 }));
}

#[test]
fn read_past_end_saturates_needed() {
    let data = [0x00, 0x01, 0x02];
    let mut r = Reader::new(&data);
    r.read_bytes(2).unwrap();
    assert_eq!(r.ensure(usize::MAX), Err(ReadError { needed: usize::MAX, have: 3 }));
    assert_eq!(
        r.read_padded_string(usize::MAX),
        Err(ReadError { needed: usize::MAX, have: 3 })
    );
    assert_eq!(r.position(), 2);
}

#[test]
fn read_padded_string_without_nul_stops_at_declared_length() {
    let data = [b'a', b'b', b'c', b'd', b'e', b'f', b'g', b'h'];
    let mut r = Reader::new(&data);
    assert_eq!(r.read_padded_string(5).unwrap(), "abcde");
    assert_eq!(r.position(), 8);
}

#[test]
fn read_padded_string_replaces_invalid_utf8() {
    let data = [0xFF, b'a', 0x00, 0x00];
    let mut r = Reader::new(&data);
    assert_eq!(r.read_padded_string(2).unwrap(), "\u{FFFD}a");
}

#[test]
fn seek_moves_the_cursor() {
    let data = [1u8, 2, 3, 4];
    let mut r = Reader::new(&data);
    r.read_bytes(3).unwrap();
    r.seek(1);
    assert_eq!(r.read_bytes(2).unwrap(), &[2u8, 3][..]);
    assert_eq!(r.data(), &data[..]);
}
