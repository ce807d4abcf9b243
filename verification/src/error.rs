use vstd::prelude::*;

use crate::ublox::State;

verus! {

/// A classified, terminal failure of a decode or encode attempt.
#[derive(Copy, Clone, Debug, PartialEq, Eq)]
pub enum Error {
    /// The byte source gave out before the frame was complete.
    Read,
    /// A received byte violated the grammar: the state it arrived in, the
    /// byte that state expects, and the byte actually received.
    Parse(State, u8, u8),
    /// The frame arrived whole but failed its integrity check: the received
    /// (check-A, check-B) pair, then the recomputed pair.
    Checksum((u8, u8), (u8, u8)),
    /// The payload handed to the encode path does not fit the 16-bit
    /// length field.
    PayloadTooLarge,
}

} // verus!
