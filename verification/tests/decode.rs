use cardreader::protocol::Action;
use cardreader::protocol::decode_report;
use cardreader::protocol::header_ok;

fn report(bytes: &[u8]) -> [u8; 64] {
    let mut buf = [0u8; 64];
    buf[..bytes.len()].copy_from_slice(bytes);
    buf
}

#[test]
fn decodes_insert_fields_in_order() {
    let buf = report(&[0xEA, 0xCA, 0x01, 0x05, 0x11, 0x22, 0x33, 0x44, 0x55, 0x66, 0x77, 0x88]);
    match decode_report(&buf) {
        Some(Action::Insert(a)) => {
            assert_eq!(a.player_number, 0x05);
            assert_eq!(a.card_id, [0x11, 0x22, 0x33, 0x44, 0x55, 0x66, 0x77, 0x88]);
        }
        _ => panic!("expected an insert action"),
    }
}

#[test]
fn decodes_remove_player_number() {
    let buf = report(&[0xEA, 0xCA, 0x02, 0x09]);
    match decode_report(&buf) {
        Some(Action::Remove(a)) => assert_eq!(a.player_number, 0x09),
        _ => panic!("expected a remove action"),
    }
}

#[test]
fn rejects_wrong_first_magic_byte() {
    let buf = report(&[0x00, 0xCA, 0x01, 0x01]);
    assert!(!header_ok(&buf));
    assert!(decode_report(&buf).is_none());
}

#[test]
fn rejects_wrong_second_magic_byte() {
    let buf = report(&[0xEA, 0x00, 0x01, 0x01]);
    assert!(!header_ok(&buf));
    assert!(decode_report(&buf).is_none());
}

#[test]
fn rejects_both_magic_bytes_wrong() {
    let buf = report(&[0x12, 0x34, 0x01, 0x01]);
    assert!(!header_ok(&buf));
    assert!(decode_report(&buf).is_none());
}

#[test]
fn unknown_opcode_decodes_to_unknown() {
    let buf = report(&[0xEA, 0xCA, 0x7F, 0x01]);
    assert!(header_ok(&buf));
    assert!(matches!(decode_report(&buf), Some(Action::Unknown)));
}

#[test]
fn zero_opcode_decodes_to_unknown() {
    let buf = report(&[0xEA, 0xCA, 0x00, 0x00]);
    assert!(matches!(decode_report(&buf), Some(Action::Unknown)));
}
