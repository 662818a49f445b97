//! The random numbers of an operation, as a value that the caller supplies.
use crate::algebra::draw_randomness;
use vstd::prelude::*;

verus! {

/// Thirty-two random bytes, from which one operation draws every random
/// number that it needs.  A value is used up by the operation it is handed
/// to and cannot be copied: two proofs made from the same randomness would
/// give the token away.
#[derive(Debug)]
pub struct Randomness {
    bytes: [u8; 32],
}

impl View for Randomness {
    type V = Seq<u8>;

    /// The bytes themselves.
    closed spec fn view(&self) -> Seq<u8> {
        self.bytes@
    }
}

impl Randomness {
    /// The number of bytes in a value.
    pub const BYTES: usize = 32;

    /// Fresh randomness from the operating system.  Nothing is known of the
    /// bytes drawn but their number.
    pub fn from_system() -> (out: Randomness)
        ensures
            out@.len() == 32,
    {
        Randomness { bytes: draw_randomness() }
    }

    /// The randomness that consists of the given bytes.  It makes an
    /// operation reproducible, and is only as secret and as fresh as the
    /// bytes are.
    pub fn from_seed(seed: [u8; 32]) -> (out: Randomness)
        ensures
            out@ == seed@,
    {
        Randomness { bytes: seed }
    }

    /// The bytes, which are handed over with the value.
    pub fn into_bytes(self) -> (out: [u8; 32])
        ensures
            out@ == self@,
    {
        self.bytes
    }
}

} // verus!
