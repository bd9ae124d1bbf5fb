//! The report loop's per-iteration logic: validate, decode, dispatch.
//!
//! Each iteration of the loop reads one 64-byte report, validates its
//! header, decodes it into an action, and executes the action against the
//! record store. Only a successfully persisted insert is acknowledged back
//! to the device; the acknowledgment is a fixed 8-byte all-zero report.

use vstd::prelude::*;

use crate::hex::card_id_hex;
use crate::hex::hex_of;
use crate::protocol::Action;
use crate::protocol::InsertCardAction;
use crate::protocol::RemoveCardAction;
use crate::protocol::decode_report;
use crate::protocol::spec_card_id;
use crate::protocol::spec_is_insert;
use crate::protocol::spec_is_remove;
use crate::store::CardStore;

verus! {

/// What the record holds after one report: a valid insert overwrites it
/// with the hexadecimal identifier of that insert's card; every other
/// report — a remove, an unknown opcode, a bad header — leaves it unchanged.
pub open spec fn record_after_report(rec: Option<Seq<char>>, buf: Seq<u8>) -> Option<Seq<char>> {
    if spec_is_insert(buf) {
        Some(hex_of(spec_card_id(buf)))
    } else {
        rec
    }
}

/// What the record holds after a run of reports, handled in order.
pub open spec fn record_after_reports(rec: Option<Seq<char>>, bufs: Seq<Seq<u8>>) -> Option<
    Seq<char>,
>
    decreases bufs.len(),
{
    if bufs.len() == 0 {
        rec
    } else {
        record_after_reports(record_after_report(rec, bufs[0]), bufs.drop_first())
    }
}

/// The outcome of handling one report.
pub enum ReportOutcome {
    /// A valid insert: the record now holds this identifier, and on
    /// successful persistence an acknowledgment is owed to the device.
    Inserted { player_number: u8, hex: String },
    /// A valid remove: reported only; the record is untouched and no
    /// acknowledgment is ever sent for it.
    Removed { player_number: u8 },
    /// A bad header or an unknown opcode: discarded with no effect.
    Ignored,
}

/// What the loop does right after attempting to persist an insert.
#[derive(Clone, Copy, PartialEq, Eq, Structural, Debug)]
pub enum StepDirective {
    /// Persistence succeeded: send the all-zero acknowledgment report.
    SendAck,
    /// Persistence failed: report the error and pause briefly before the
    /// next read; the loop itself is not aborted.
    Pause,
}

/// Handles an insert action: formats the 8 raw identifier bytes as a
/// fixed-width uppercase hexadecimal string and overwrites the record with
/// exactly that string, which is also returned.
pub fn insert_card(store: &mut CardStore, action: &InsertCardAction) -> (hex: String)
    ensures
        hex@ == hex_of(action.card_id@),
        hex@.len() == 16,
        final(store)@ == Some(hex_of(action.card_id@)),
{
    let hex = card_id_hex(&action.card_id);
    store.write(hex.clone());
    hex
}

/// Handles a remove action: it is only reported; the record is never
/// modified and success is returned unconditionally.
pub fn remove_card(store: &mut CardStore, _action: &RemoveCardAction) -> (r: String)
    ensures
        r@.len() == 0,
        final(store)@ == old(store)@,
{
    String::new()
}

/// Validates and dispatches one 64-byte report against the record store.
///
/// A valid insert overwrites the record with the card's hexadecimal
/// identifier and yields that identifier; a valid remove yields its player
/// number and changes nothing; anything else — either magic byte wrong, or
/// an opcode that is neither insert nor remove — is ignored and changes
/// nothing.
pub fn handle_report(store: &mut CardStore, buf: &[u8; 64]) -> (o: ReportOutcome)
    ensures
        final(store)@ == record_after_report(old(store)@, buf@),
        spec_is_insert(buf@) ==> (o matches ReportOutcome::Inserted { player_number, hex }
            && player_number == buf@[3] && hex@ == hex_of(spec_card_id(buf@))),
        spec_is_remove(buf@) ==> (o matches ReportOutcome::Removed { player_number }
            && player_number == buf@[3]),
        !spec_is_insert(buf@) && !spec_is_remove(buf@) ==> (o matches ReportOutcome::Ignored),
{
    match decode_report(buf) {
        Some(Action::Insert(a)) => {
            let hex = insert_card(store, &a);
            ReportOutcome::Inserted { player_number: a.player_number, hex }
        },
        Some(Action::Remove(a)) => {
            let _ = remove_card(store, &a);
            ReportOutcome::Removed { player_number: a.player_number }
        },
        _ => ReportOutcome::Ignored,
    }
}

/// Decides the loop's follow-up to an insert: send the acknowledgment
/// exactly when the record was persisted durably; pause and keep polling
/// when persistence failed.
pub fn insert_followup(persist_ok: bool) -> (d: StepDirective)
    ensures
        persist_ok <==> d == StepDirective::SendAck,
        !persist_ok <==> d == StepDirective::Pause,
{
    if persist_ok {
        StepDirective::SendAck
    } else {
        StepDirective::Pause
    }
}

/// The fixed acknowledgment report sent to the device after a successful
/// insert: 8 zero bytes, which the device reads as the trigger to simulate
/// the card-insert key press.
pub fn ack_report() -> (r: [u8; 8])
    ensures
        r@.len() == 8,
        forall|i: int| 0 <= i < 8 ==> r@[i] == 0u8,
{
    [0u8; 8]
}

/// Law: an insert fully overwrites the record. Whatever the record held
/// before, after a valid insert report it holds exactly the hexadecimal
/// encoding of that insert's card identifier.
pub proof fn lemma_insert_overwrites(rec: Option<Seq<char>>, buf: Seq<u8>)
    requires
        spec_is_insert(buf),
    ensures
        record_after_report(rec, buf) == Some(hex_of(spec_card_id(buf))),
{
}

/// Law: a remove report never modifies the record, regardless of prior
/// state.
pub proof fn lemma_remove_preserves_record(rec: Option<Seq<char>>, buf: Seq<u8>)
    requires
        spec_is_remove(buf),
    ensures
        record_after_report(rec, buf) == rec,
{
}

/// Law: any report that is not a valid insert — a remove, an unknown
/// opcode, or a report whose header fails validation — leaves the record
/// unchanged.
pub proof fn lemma_non_insert_preserves_record(rec: Option<Seq<char>>, buf: Seq<u8>)
    requires
        !spec_is_insert(buf),
    ensures
        record_after_report(rec, buf) == rec,
{
}

/// Law: a run of reports none of which is a valid insert leaves the record
/// exactly as it was.
pub proof fn lemma_no_insert_preserves_record(rec: Option<Seq<char>>, bufs: Seq<Seq<u8>>)
    requires
        forall|j: int| 0 <= j < bufs.len() ==> !spec_is_insert(#[trigger] bufs[j]),
    ensures
        record_after_reports(rec, bufs) == rec,
    decreases bufs.len(),
{
    if bufs.len() > 0 {
        lemma_no_insert_preserves_record(record_after_report(rec, bufs[0]), bufs.drop_first());
    }
}

/// Law: the record keeps no trace of earlier inserts. If a run of reports
/// has a valid insert at some position and no valid insert after it, then
/// after the whole run the record holds exactly that insert's identifier —
/// whatever the record held before the run, and whatever inserts came
/// earlier in it.
pub proof fn lemma_last_insert_wins(rec: Option<Seq<char>>, bufs: Seq<Seq<u8>>, k: int)
    requires
        0 <= k < bufs.len(),
        spec_is_insert(bufs[k]),
        forall|j: int| k < j < bufs.len() ==> !spec_is_insert(#[trigger] bufs[j]),
    ensures
        record_after_reports(rec, bufs) == Some(hex_of(spec_card_id(bufs[k]))),
    decreases bufs.len(),
{
    if k == 0 {
        lemma_no_insert_preserves_record(record_after_report(rec, bufs[0]), bufs.drop_first());
    } else {
        lemma_last_insert_wins(record_after_report(rec, bufs[0]), bufs.drop_first(), k - 1);
    }
}

} // verus!
