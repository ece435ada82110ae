use vstd::prelude::*;

verus! {

/// A real number, carried as the bit pattern of its IEEE-754 binary64
/// encoding.
///
/// Two scalars are equal exactly when their bit patterns are equal, which is
/// a finer relation than numeric equality: positive and negative zero differ.
#[derive(Clone, Copy, PartialEq, Eq, Structural, Debug)]
pub struct Scalar(pub u64);

impl Scalar {
    /// The scalar with the given bit pattern.
    pub fn from_bits(bits: u64) -> (s: Scalar)
        ensures
            s == Scalar(bits),
    {
        Scalar(bits)
    }

    /// The bit pattern of this scalar.
    pub fn to_bits(self) -> (bits: u64)
        ensures
            bits == self.0,
    {
        self.0
    }
}

} // verus!
