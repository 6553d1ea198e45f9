//! Trusted boundary around the outside bit-vector used as the frame
//! allocator's issue bitmap: one bit per physical frame, set once the frame
//! has been handed out.
//!
//! The bit-vector type itself cannot be declared to the verifier (its
//! generics are bounded by the crate's own traits), so it sits in a private
//! field of an opaque struct, and the contracts below speak of its contents
//! through `bitmap_bits`.

use vstd::prelude::*;

verus! {

/// An issue bitmap, backed by a bit-vector of the outside crate.
#[verifier::external_body]
pub struct FrameBitmap {
    bits: bitvec::vec::BitVec<u8, bitvec::order::Msb0>,
}

/// The bits held by an issue bitmap, in index order.
pub uninterp spec fn bitmap_bits(b: &FrameBitmap) -> Seq<bool>;

impl FrameBitmap {
    /// Relies on bitvec's `BitVec::repeat`: a fresh bit-vector of `len`
    /// copies of the given bit.
    #[verifier::external_body]
    pub fn new_clear(len: usize) -> (r: FrameBitmap)
        ensures
            bitmap_bits(&r).len() == len,
            forall|i: int| 0 <= i < len ==> !bitmap_bits(&r)[i],
    {
        FrameBitmap { bits: bitvec::vec::BitVec::repeat(false, len) }
    }

    /// Relies on bitvec's `BitSlice::len`, reached through `BitVec`'s deref.
    #[verifier::external_body]
    pub fn len(&self) -> (r: usize)
        ensures
            r == bitmap_bits(self).len(),
    {
        self.bits.len()
    }

    /// Relies on bitvec's `BitSlice::first_zero`: the index of the first bit
    /// cleared to `0`, or `None` when every bit is set.
    #[verifier::external_body]
    pub fn first_zero(&self) -> (r: Option<usize>)
        ensures
            match r {
                Some(i) => {
                    &&& 0 <= i < bitmap_bits(self).len()
                    &&& !bitmap_bits(self)[i as int]
                    &&& forall|j: int| 0 <= j < i ==> bitmap_bits(self)[j]
                },
                None => forall|j: int| 0 <= j < bitmap_bits(self).len() ==> bitmap_bits(self)[j],
            },
    {
        self.bits.first_zero()
    }

    /// Relies on bitvec's `BitSlice::set`: writes one bit in place; panics
    /// only out of bounds, which the precondition excludes.
    #[verifier::external_body]
    pub fn set(&mut self, index: usize, value: bool)
        requires
            index < bitmap_bits(old(self)).len(),
        ensures
            bitmap_bits(final(self)) == bitmap_bits(old(self)).update(index as int, value),
    {
        self.bits.set(index, value);
    }
}

} // verus!
