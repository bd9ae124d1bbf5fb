//! The single-slot store of the most recently inserted card identifier.
//!
//! The bridge persists exactly one record: the hexadecimal identifier of the
//! last inserted card. Every insert overwrites it in full; nothing else
//! touches it. This type is that record as a value, so the rest of the
//! library can be stated and checked against it; durable storage mirrors it
//! outside the library.

use vstd::prelude::*;

verus! {

/// The record slot: empty until the first insert, then the text of the most
/// recent insert's identifier. Its view is the record's text, if any.
pub struct CardStore {
    record: Option<String>,
}

impl View for CardStore {
    type V = Option<Seq<char>>;

    closed spec fn view(&self) -> Option<Seq<char>> {
        match self.record {
            Some(s) => Some(s@),
            None => None,
        }
    }
}

impl CardStore {
    /// An empty store: no card has been recorded yet.
    pub fn new() -> (s: Self)
        ensures
            s@ == Option::<Seq<char>>::None,
    {
        CardStore { record: None }
    }

    /// Overwrites the record in full with the given text; nothing of any
    /// earlier record remains.
    pub fn write(&mut self, text: String)
        ensures
            final(self)@ == Some(text@),
    {
        self.record = Some(text);
    }

    /// The current record, if any.
    pub fn read(&self) -> (r: Option<String>)
        ensures
            match r {
                Some(s) => self@ == Some(s@),
                None => self@ == Option::<Seq<char>>::None,
            },
    {
        match &self.record {
            Some(s) => Some(s.clone()),
            None => None,
        }
    }
}

} // verus!
