use bitvec::vec::BitVec;
use vstd::prelude::*;

verus! {

/// The bits captured from the probe, held in a bit vector of `bitvec`.
#[verifier::external_body]
pub struct CapturedBits {
    bits: BitVec,
}

/// The bits that a captured-bits buffer holds, in order.
pub uninterp spec fn captured_bits(v: CapturedBits) -> Seq<bool>;

impl CapturedBits {
    /// Wraps `bitvec::vec::BitVec::new`, which, by its source, returns the empty bit
    /// vector (its `EMPTY` constant): the new buffer holds no bits.
    #[verifier::external_body]
    pub(crate) fn new() -> (v: CapturedBits)
        ensures
            captured_bits(v) == Seq::<bool>::empty(),
    {
        CapturedBits { bits: BitVec::new() }
    }
}

} // verus!
