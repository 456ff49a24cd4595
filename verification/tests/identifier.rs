use nfc_monitor::identifier::identifier_text;

#[test]
fn identifier_is_lowercase_hex() {
    assert_eq!(identifier_text(&vec![0x04, 0xA1, 0x3B, 0x9C]), "04a13b9c");
}

#[test]
fn empty_identifier_has_empty_text() {
    assert_eq!(identifier_text(&Vec::new()), "");
}

#[test]
fn every_byte_takes_two_digits() {
    assert_eq!(identifier_text(&vec![0x00, 0x0F, 0xF0, 0xFF]), "000ff0ff");
}
