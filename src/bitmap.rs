//! The null bitmap of a column: one presence bit per row, kept in a `BitVec`.
use bitvec::vec::BitVec;
use vstd::prelude::*;

verus! {

/// A `BitVec` of presence bits, read and written only through the functions below.
#[verifier::external_body]
pub struct Bitmap {
    bits: BitVec,
}

/// The most bits that a `BitVec` can hold (`usize::MAX >> 3`); `with_capacity` and
/// `push` panic beyond it.
pub const MAX_BITS: usize = usize::MAX / 8;

/// The bits that a bitmap holds, in order.
pub uninterp spec fn bits_of(b: Bitmap) -> Seq<bool>;

/// Relies on `BitVec::with_capacity`: a new bit-vector is empty.
#[verifier::external_body]
pub fn bitmap_with_capacity(capacity: usize) -> (r: Bitmap)
    requires
        capacity <= MAX_BITS,
    ensures
        bits_of(r) == Seq::<bool>::empty(),
{
    Bitmap { bits: BitVec::with_capacity(capacity) }
}

/// Relies on `BitVec::push`: the bit is appended at the end.
#[verifier::external_body]
pub fn bitmap_push(b: &mut Bitmap, bit: bool)
    requires
        bits_of(*old(b)).len() < MAX_BITS,
    ensures
        bits_of(*final(b)) == bits_of(*old(b)).push(bit),
{
    b.bits.push(bit)
}

/// Relies on indexing a `BitSlice` by position: the bit at that position.
#[verifier::external_body]
pub fn bitmap_get(b: &Bitmap, idx: usize) -> (r: bool)
    requires
        idx < bits_of(*b).len(),
    ensures
        r == bits_of(*b)[idx as int],
{
    b.bits[idx]
}

} // verus!
