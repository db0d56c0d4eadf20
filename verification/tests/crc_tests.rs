use dx3::crc::{crc32, crc32_bt};

fn zero_frame() -> Vec<u8> {
    let mut buf = vec![0u8; 74];
    buf[0] = 0x31;
    buf
}

#[test]
fn crc32_matches_the_standard_check_value() {
    assert_eq!(crc32(b"123456789"), 0xCBF4_3926);
}

#[test]
fn crc32_of_nothing_is_zero() {
    assert_eq!(crc32(&[]), 0);
}

#[test]
fn crc32_bt_of_nothing_is_the_checksum_of_the_header_byte() {
    assert_eq!(crc32_bt(&[]), 0xEADA_2D49);
    assert_eq!(crc32_bt(&[]), crc32(&[0xA2]));
}

#[test]
fn crc32_bt_of_zero_frame_is_fixed() {
    let buf = zero_frame();
    assert_eq!(crc32_bt(&buf), 0xC30E_1F7B);
    assert_eq!(crc32_bt(&buf), crc32_bt(&buf));
}

#[test]
fn crc32_bt_of_text_is_fixed() {
    assert_eq!(crc32_bt(b"123456789"), 0x63DA_9F12);
}

#[test]
fn crc32_bt_differs_from_plain_crc32() {
    let buf = zero_frame();
    assert_eq!(crc32(&buf), 0x5843_C73D);
    assert_ne!(crc32(&buf), crc32_bt(&buf));
}

#[test]
fn crc32_bt_is_crc32_with_header_in_front() {
    let buf = zero_frame();
    let mut with_header = vec![0xA2u8];
    with_header.extend_from_slice(&buf);
    assert_eq!(crc32_bt(&buf), crc32(&with_header));
}

#[test]
fn changing_one_byte_changes_the_checksum() {
    let buf = zero_frame();
    let base = crc32_bt(&buf);
    let base_plain = crc32(&buf);
    let mut changed = buf.clone();
    changed[10] = 1;
    assert_eq!(crc32_bt(&changed), 0x4C3B_32EE);
    for i in 0..buf.len() {
        for bit in 0..8 {
            let mut other = buf.clone();
            other[i] ^= 1 << bit;
            assert_ne!(crc32_bt(&other), base);
            assert_ne!(crc32(&other), base_plain);
        }
    }
}
