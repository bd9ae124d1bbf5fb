use cardreader::hex::card_id_hex;

#[test]
fn encodes_spec_example_zero_padded() {
    let id: [u8; 8] = [0x00, 0x01, 0xFF, 0x0A, 0x00, 0x00, 0x00, 0x00];
    assert_eq!(card_id_hex(&id), "0001FF0A00000000");
}

#[test]
fn encoding_is_sixteen_uppercase_chars() {
    let id: [u8; 8] = [0x12, 0x34, 0xAB, 0xCD, 0xEF, 0x56, 0x78, 0x90];
    let hex = card_id_hex(&id);
    assert_eq!(hex.len(), 16);
    assert!(hex.chars().all(|c| c.is_ascii_digit() || ('A'..='F').contains(&c)));
    assert_eq!(hex, "1234ABCDEF567890");
}

#[test]
fn encoding_is_deterministic() {
    let id: [u8; 8] = [0xDE, 0xAD, 0xBE, 0xEF, 0x01, 0x02, 0x03, 0x04];
    assert_eq!(card_id_hex(&id), card_id_hex(&id));
}

#[test]
fn encodes_all_zero_identifier() {
    let id: [u8; 8] = [0; 8];
    assert_eq!(card_id_hex(&id), "0000000000000000");
}

#[test]
fn encodes_all_ones_identifier() {
    let id: [u8; 8] = [0xFF; 8];
    assert_eq!(card_id_hex(&id), "FFFFFFFFFFFFFFFF");
}
