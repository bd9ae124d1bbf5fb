//! The fixed-layout report protocol spoken by the card-reader device.
//!
//! Each report is 64 bytes: two magic header bytes, an opcode, a player
//! number, and (for inserts) an 8-byte card identifier. Reports whose header
//! does not match are discarded; unknown opcodes are ignored.

use vstd::prelude::*;

verus! {

/// First magic byte of a valid report header.
pub const MAGIC_A: u8 = 0xEA;

/// Second magic byte of a valid report header.
pub const MAGIC_B: u8 = 0xCA;

/// Opcode of an insert-card report.
pub const OPCODE_INSERT: u8 = 0x01;

/// Opcode of a remove-card report.
pub const OPCODE_REMOVE: u8 = 0x02;

/// A card was inserted: which reader it was inserted into, and the raw
/// 8-byte identifier read from the card.
pub struct InsertCardAction {
    pub player_number: u8,
    pub card_id: [u8; 8],
}

/// A card was removed from a reader.
pub struct RemoveCardAction {
    pub player_number: u8,
}

/// The action decoded from a validated report's opcode byte.
pub enum Action {
    Insert(InsertCardAction),
    Remove(RemoveCardAction),
    /// Any opcode other than insert or remove: reported and ignored, with no
    /// effect on any state.
    Unknown,
}

/// A report header is valid exactly when both magic bytes match; a report is
/// rejected when either byte is wrong.
pub open spec fn spec_header_ok(buf: Seq<u8>) -> bool {
    buf.len() == 64 && buf[0] == MAGIC_A && buf[1] == MAGIC_B
}

/// A validated report carrying the insert opcode.
pub open spec fn spec_is_insert(buf: Seq<u8>) -> bool {
    spec_header_ok(buf) && buf[2] == OPCODE_INSERT
}

/// A validated report carrying the remove opcode.
pub open spec fn spec_is_remove(buf: Seq<u8>) -> bool {
    spec_header_ok(buf) && buf[2] == OPCODE_REMOVE
}

/// The 8 raw card-identifier bytes of an insert report, in wire order.
pub open spec fn spec_card_id(buf: Seq<u8>) -> Seq<u8> {
    buf.subrange(4, 12)
}

/// Validates the protocol header of a report: accepted exactly when byte 0
/// is the first magic byte and byte 1 the second.
pub fn header_ok(buf: &[u8; 64]) -> (r: bool)
    ensures
        r == spec_header_ok(buf@),
{
    buf[0] == MAGIC_A && buf[1] == MAGIC_B
}

/// Decodes one 64-byte report. A report failing the header check decodes to
/// nothing. A validated report decodes by opcode: an insert carries the
/// player number from byte 3 and the identifier from bytes 4..12 in order, a
/// remove carries the player number, and any other opcode is unknown.
pub fn decode_report(buf: &[u8; 64]) -> (r: Option<Action>)
    ensures
        r is Some <==> spec_header_ok(buf@),
        spec_is_insert(buf@) ==> (r matches Some(Action::Insert(a)) && a.player_number == buf@[3]
            && a.card_id@ == spec_card_id(buf@)),
        spec_is_remove(buf@) ==> (r matches Some(Action::Remove(a)) && a.player_number == buf@[3]),
        spec_header_ok(buf@) && buf@[2] != OPCODE_INSERT && buf@[2] != OPCODE_REMOVE ==> (
        r matches Some(Action::Unknown)),
{
    if !header_ok(buf) {
        return None;
    }
    if buf[2] == OPCODE_INSERT {
        let card_id: [u8; 8] = [buf[4], buf[5], buf[6], buf[7], buf[8], buf[9], buf[10], buf[11]];
        proof {
            assert(card_id@ =~= spec_card_id(buf@));
        }
        Some(Action::Insert(InsertCardAction { player_number: buf[3], card_id }))
    } else if buf[2] == OPCODE_REMOVE {
        Some(Action::Remove(RemoveCardAction { player_number: buf[3] }))
    } else {
        Some(Action::Unknown)
    }
}

} // verus!
