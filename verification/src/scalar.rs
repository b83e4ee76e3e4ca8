//! Real numbers of the engine, carried but never computed with.
use vstd::prelude::*;

verus! {

/// A real number of the engine, held as the 64 bits of its binary
/// representation. The library hands such numbers on unchanged and never
/// does arithmetic on them; two of them are equal when their bits are.
#[derive(Debug, Clone, Copy, PartialEq, Eq, Structural)]
pub struct Scalar {
    /// The bits of the number.
    pub bits: u64,
}

impl Scalar {
    /// The number with the given bits.
    pub fn from_bits(bits: u64) -> (scalar: Scalar)
        ensures
            scalar.bits == bits,
    {
        Scalar { bits }
    }

    /// The bits of the number.
    pub fn to_bits(self) -> (bits: u64)
        ensures
            bits == self.bits,
    {
        self.bits
    }
}

} // verus!
