//! Real numbers as they travel through the proxy.

use vstd::prelude::*;

verus! {

/// An IEEE 754 binary64 number, held as its bit pattern.
///
/// The proxy never computes with the numbers it relays; it only has to hand
/// them on unchanged. Two values are the same number on the wire exactly when
/// their bit patterns agree, so the bit pattern is the value.
#[derive(Clone, Copy, Debug)]
pub struct Float64 {
    pub bits: u64,
}

impl Float64 {
    /// The number with the given bit pattern.
    pub fn from_bits(bits: u64) -> (number: Float64)
        ensures
            number.bits == bits,
    {
        Float64 { bits }
    }

    /// The bit pattern of this number.
    pub fn to_bits(self) -> (bits: u64)
        ensures
            bits == self.bits,
    {
        self.bits
    }
}

} // verus!
