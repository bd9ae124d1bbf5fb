use cardreader::poll::ReportOutcome;
use cardreader::poll::StepDirective;
use cardreader::poll::ack_report;
use cardreader::poll::handle_report;
use cardreader::poll::insert_card;
use cardreader::poll::insert_followup;
use cardreader::poll::remove_card;
use cardreader::protocol::InsertCardAction;
use cardreader::protocol::RemoveCardAction;
use cardreader::store::CardStore;

fn report(bytes: &[u8]) -> [u8; 64] {
    let mut buf = [0u8; 64];
    buf[..bytes.len()].copy_from_slice(bytes);
    buf
}

#[test]
fn insert_scenario_persists_and_acknowledges() {
    let buf = report(&[
        0xEA, 0xCA, 0x01, 0x02, 0xDE, 0xAD, 0xBE, 0xEF, 0x00, 0x00, 0x00, 0x00,
    ]);
    let mut store = CardStore::new();
    match handle_report(&mut store, &buf) {
        ReportOutcome::Inserted { player_number, hex } => {
            assert_eq!(player_number, 0x02);
            assert_eq!(hex, "DEADBEEF00000000");
        }
        _ => panic!("expected an insert outcome"),
    }
    assert_eq!(store.read().as_deref(), Some("DEADBEEF00000000"));
    // persistence succeeded: the all-zero acknowledgment is owed
    assert_eq!(insert_followup(true), StepDirective::SendAck);
    assert_eq!(ack_report(), [0u8; 8]);
}

#[test]
fn remove_scenario_changes_nothing_and_sends_nothing() {
    let insert = report(&[0xEA, 0xCA, 0x01, 0x02, 0x01, 0x02, 0x03, 0x04, 0x05, 0x06, 0x07, 0x08]);
    let remove = report(&[0xEA, 0xCA, 0x02, 0x02]);
    let mut store = CardStore::new();
    handle_report(&mut store, &insert);
    match handle_report(&mut store, &remove) {
        ReportOutcome::Removed { player_number } => assert_eq!(player_number, 0x02),
        _ => panic!("expected a remove outcome"),
    }
    assert_eq!(store.read().as_deref(), Some("0102030405060708"));
}

#[test]
fn repeated_inserts_fully_overwrite() {
    let first = report(&[0xEA, 0xCA, 0x01, 0x01, 0xAA, 0xAA, 0xAA, 0xAA, 0xAA, 0xAA, 0xAA, 0xAA]);
    let second = report(&[0xEA, 0xCA, 0x01, 0x02, 0xBB, 0xBB, 0xBB, 0xBB, 0xBB, 0xBB, 0xBB, 0xBB]);
    let third = report(&[0xEA, 0xCA, 0x01, 0x01, 0x00, 0x11, 0x22, 0x33, 0x44, 0x55, 0x66, 0x77]);
    let mut store = CardStore::new();
    handle_report(&mut store, &first);
    handle_report(&mut store, &second);
    handle_report(&mut store, &third);
    assert_eq!(store.read().as_deref(), Some("0011223344556677"));
}

#[test]
fn remove_on_empty_store_leaves_it_empty() {
    let remove = report(&[0xEA, 0xCA, 0x02, 0x00]);
    let mut store = CardStore::new();
    assert!(matches!(
        handle_report(&mut store, &remove),
        ReportOutcome::Removed { player_number: 0 }
    ));
    assert!(store.read().is_none());
}

#[test]
fn unknown_opcode_is_ignored() {
    let insert = report(&[0xEA, 0xCA, 0x01, 0x01, 0x12, 0x34, 0x56, 0x78, 0x9A, 0xBC, 0xDE, 0xF0]);
    let unknown = report(&[0xEA, 0xCA, 0x03, 0x01, 0xFF, 0xFF, 0xFF, 0xFF, 0xFF, 0xFF, 0xFF, 0xFF]);
    let mut store = CardStore::new();
    handle_report(&mut store, &insert);
    assert!(matches!(
        handle_report(&mut store, &unknown),
        ReportOutcome::Ignored
    ));
    assert_eq!(store.read().as_deref(), Some("123456789ABCDEF0"));
}

#[test]
fn bad_header_report_does_not_touch_record() {
    let insert = report(&[0xEA, 0xCA, 0x01, 0x01, 0x12, 0x34, 0x56, 0x78, 0x9A, 0xBC, 0xDE, 0xF0]);
    let bad = report(&[0xEA, 0x00, 0x01, 0x01, 0xFF, 0xFF, 0xFF, 0xFF, 0xFF, 0xFF, 0xFF, 0xFF]);
    let mut store = CardStore::new();
    handle_report(&mut store, &insert);
    assert!(matches!(handle_report(&mut store, &bad), ReportOutcome::Ignored));
    assert_eq!(store.read().as_deref(), Some("123456789ABCDEF0"));
}

#[test]
fn insert_card_returns_record_text() {
    let mut store = CardStore::new();
    let action = InsertCardAction {
        player_number: 1,
        card_id: [0x0A, 0x0B, 0x0C, 0x0D, 0x0E, 0x0F, 0x10, 0x11],
    };
    let hex = insert_card(&mut store, &action);
    assert_eq!(hex, "0A0B0C0D0E0F1011");
    assert_eq!(store.read(), Some(hex));
}

#[test]
fn remove_card_succeeds_with_empty_result() {
    let mut store = CardStore::new();
    let action = RemoveCardAction { player_number: 3 };
    assert_eq!(remove_card(&mut store, &action), "");
    assert!(store.read().is_none());
}

#[test]
fn failed_persistence_pauses_instead_of_acknowledging() {
    assert_eq!(insert_followup(false), StepDirective::Pause);
}
