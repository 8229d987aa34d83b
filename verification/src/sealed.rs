//! The trait that closes the set of measurement kinds.

use vstd::prelude::*;

verus! {

/// Construction of a measurement from the word that the sensor sent. The
/// module is private, so no other crate can name this trait, implement it, or
/// call through it: the kinds of measurement are those defined here.
pub trait SealedFromRaw: Sized {
    /// The raw word that the measurement holds.
    spec fn raw_word(&self) -> u16;

    /// Wraps a raw word whose status bits have been cleared.
    fn from_raw(raw: u16) -> (measurement: Self)
        requires
            raw & 0x0003 == 0,
        ensures
            measurement.raw_word() == raw,
    ;
}

} // verus!
