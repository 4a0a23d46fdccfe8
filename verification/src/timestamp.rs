//! Presentation timestamps of frames.

use vstd::prelude::*;

verus! {

/// The bit pattern of negative zero: the sign bit alone.
pub const NEGATIVE_ZERO_BITS: u64 = 0x8000_0000_0000_0000;

/// A frame's presentation time in seconds, held as the bit pattern of an
/// IEEE 754 double-precision number.
///
/// The session forwards a timestamp to the engine untouched and asks one
/// question of it: whether it is zero. A double compares equal to zero in
/// exactly two bit patterns, all bits clear or the sign bit alone, so the
/// question is answered on the bits.
#[derive(Clone, Copy, Debug, PartialEq, Eq, Structural)]
pub struct Timestamp {
    /// The IEEE 754 binary64 bit pattern of the time in seconds.
    pub bits: u64,
}

impl Timestamp {
    /// Whether the number that the bits encode compares equal to zero.
    pub open spec fn zero(self) -> bool {
        self.bits == 0 || self.bits == NEGATIVE_ZERO_BITS
    }

    /// The timestamp with the given bit pattern.
    pub fn from_bits(bits: u64) -> (t: Timestamp)
        ensures
            t.bits == bits,
    {
        Timestamp { bits }
    }

    /// The bit pattern, as the engine is to receive it.
    pub fn to_bits(&self) -> (bits: u64)
        ensures
            bits == self.bits,
    {
        self.bits
    }

    /// Whether the timestamp is zero, of either sign.
    pub fn is_zero(&self) -> (z: bool)
        ensures
            z == self.zero(),
    {
        self.bits == 0 || self.bits == NEGATIVE_ZERO_BITS
    }
}

} // verus!
