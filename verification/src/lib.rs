//! Host-side logic for a USB HID card-reader bridge.
//!
//! The crate verifies the protocol and state logic of the bridge: decoding
//! fixed-layout 64-byte reports into card actions, encoding card identifiers
//! as uppercase hexadecimal, keeping the single-slot record of the most
//! recently inserted card, and driving the connection lifecycle (discover,
//! open with retry, poll) as a state machine. Device I/O itself lives outside
//! the library and feeds plain values into these functions.

pub mod connection;
pub mod hex;
pub mod poll;
pub mod protocol;
pub mod store;
