//! The connection lifecycle: discover, open with retry, poll.
//!
//! The connection manager finds the one target device among all enumerated
//! HID devices, opens it — retrying indefinitely with a fixed backoff on
//! open failure — and hands the open connection to the report loop. When a
//! read fails the loop ends and the manager re-enters discovery from
//! scratch. The lifecycle is a state machine over plain events; performing
//! the actual discovery, opening, reading and sleeping happens outside the
//! library.

use vstd::prelude::*;

verus! {

/// The identity triple that selects the target device among all enumerated
/// HID devices; a candidate is the target only when all three fields match.
#[derive(Clone, Copy, PartialEq, Eq, Structural, Debug)]
pub struct DeviceIdentity {
    pub vendor_id: u16,
    pub product_id: u16,
    pub interface_number: i32,
}

/// Where the connection manager stands in the lifecycle.
#[derive(Clone, Copy, PartialEq, Eq, Structural, Debug)]
pub enum ConnState {
    /// Scanning the enumerated devices for the target.
    Discovering,
    /// Target found; trying to open a system handle to it.
    Opening,
    /// Handle open; the report loop is consuming reports.
    Polling,
}

/// One observed event in the lifecycle.
#[derive(Clone, Copy, PartialEq, Eq, Structural, Debug)]
pub enum ConnEvent {
    /// Discovery found a device matching the identity triple.
    DeviceFound,
    /// Discovery found no matching device.
    DeviceNotFound,
    /// The open attempt returned a handle.
    Opened,
    /// The open attempt failed.
    OpenFailed,
    /// One report was read and handled.
    ReportRead,
    /// The read returned a transport error: terminal for this connection.
    ReadFailed,
}

/// The lifecycle's transition function. Discovery moves to opening when the
/// device is found; a successful open moves to polling; a read failure
/// abandons the connection and re-enters discovery. Every other event —
/// a failed discovery, a failed open, a handled report, or an event that
/// does not belong to the current state — leaves the state where it is.
pub open spec fn spec_conn_step(s: ConnState, e: ConnEvent) -> ConnState {
    match (s, e) {
        (ConnState::Discovering, ConnEvent::DeviceFound) => ConnState::Opening,
        (ConnState::Opening, ConnEvent::Opened) => ConnState::Polling,
        (ConnState::Polling, ConnEvent::ReadFailed) => ConnState::Discovering,
        _ => s,
    }
}

/// Advances the connection lifecycle by one observed event.
pub fn conn_step(s: ConnState, e: ConnEvent) -> (t: ConnState)
    ensures
        t == spec_conn_step(s, e),
{
    match (s, e) {
        (ConnState::Discovering, ConnEvent::DeviceFound) => ConnState::Opening,
        (ConnState::Opening, ConnEvent::Opened) => ConnState::Polling,
        (ConnState::Polling, ConnEvent::ReadFailed) => ConnState::Discovering,
        _ => s,
    }
}

/// Law: a transport error while polling sends the manager back to
/// discovery — the report loop never survives a failed read — while a
/// handled report keeps it polling, so no report's content can change the
/// connection state.
pub proof fn lemma_polling_transitions()
    ensures
        spec_conn_step(ConnState::Polling, ConnEvent::ReadFailed) == ConnState::Discovering,
        spec_conn_step(ConnState::Polling, ConnEvent::ReportRead) == ConnState::Polling,
{
}

/// The retry policy of the connection manager: unbounded attempts with a
/// fixed pause between them. There is no attempt limit and no growing
/// backoff; a device that never opens keeps the manager retrying forever.
pub struct RetryPolicy {
    backoff_millis: u64,
}

impl RetryPolicy {
    /// The fixed pause between attempts, in milliseconds.
    pub closed spec fn spec_backoff_millis(&self) -> u64 {
        self.backoff_millis
    }

    /// A fixed-interval policy.
    pub fn fixed(backoff_millis: u64) -> (p: Self)
        ensures
            p.spec_backoff_millis() == backoff_millis,
    {
        RetryPolicy { backoff_millis }
    }

    /// The fixed pause between attempts, in milliseconds.
    pub fn backoff_millis(&self) -> (r: u64)
        ensures
            r == self.spec_backoff_millis(),
    {
        self.backoff_millis
    }

    /// How long to pause after an event, if at all: a failed discovery or a
    /// failed open is followed by the fixed backoff; every other event is
    /// followed immediately by the next step.
    pub fn pause_after(&self, e: &ConnEvent) -> (r: Option<u64>)
        ensures
            (e is DeviceNotFound || e is OpenFailed) ==> r == Some(self.spec_backoff_millis()),
            !(e is DeviceNotFound || e is OpenFailed) ==> r is None,
    {
        match e {
            ConnEvent::DeviceNotFound | ConnEvent::OpenFailed => Some(self.backoff_millis),
            _ => None,
        }
    }
}

/// Whether a candidate matches the target on all three identity fields.
pub open spec fn spec_identity_matches(d: DeviceIdentity, t: DeviceIdentity) -> bool {
    d.vendor_id == t.vendor_id && d.product_id == t.product_id && d.interface_number
        == t.interface_number
}

/// Whether this candidate is the target device: vendor id, product id and
/// interface number must all match.
pub fn identity_matches(d: &DeviceIdentity, t: &DeviceIdentity) -> (r: bool)
    ensures
        r == spec_identity_matches(*d, *t),
{
    d.vendor_id == t.vendor_id && d.product_id == t.product_id && d.interface_number
        == t.interface_number
}

/// Scans the enumerated devices in order and returns the index of the first
/// that matches the target on all three identity fields, or nothing when no
/// device does. Finding nothing is reported once per discovery attempt;
/// retrying discovery is the caller's responsibility.
pub fn locate(devices: &Vec<DeviceIdentity>, target: &DeviceIdentity) -> (r: Option<usize>)
    ensures
        match r {
            Some(i) => i < devices@.len() && spec_identity_matches(devices@[i as int], *target)
                && forall|j: int|
                0 <= j < i ==> !spec_identity_matches(#[trigger] devices@[j], *target),
            None => forall|j: int|
                0 <= j < devices@.len() ==> !spec_identity_matches(#[trigger] devices@[j], *target),
        },
{
    let mut i: usize = 0;
    while i < devices.len()
        invariant
            i <= devices@.len(),
            forall|j: int| 0 <= j < i ==> !spec_identity_matches(#[trigger] devices@[j], *target),
        decreases devices@.len() - i,
    {
        if identity_matches(&devices[i], target) {
            return Some(i);
        }
        i = i + 1;
    }
    None
}

} // verus!
