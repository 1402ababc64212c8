//! The bit array that backs a behavior-state set.

use bitvec::array::BitArray;
use bitvec::order::Lsb0;
use vstd::prelude::*;

verus! {

/// Eight bits, held in a `bitvec::array::BitArray` over one byte in `Lsb0` order. What the
/// array holds is known only through `bit_array_ones` and the functions below, whose
/// contracts are taken from the documentation of `bitvec` and are not proved here.
#[verifier::external_body]
pub struct BitByte {
    bits: BitArray<[u8; 1], Lsb0>,
}

/// The indices, all below eight, at which a bit array holds a set bit.
pub uninterp spec fn bit_array_ones(bits: BitByte) -> Set<int>;

/// `BitArray::ZERO`: an array in which no bit is set.
#[verifier::external_body]
pub(crate) fn bit_array_zero() -> (bits: BitByte)
    ensures
        bit_array_ones(bits) == Set::<int>::empty(),
{
    BitByte { bits: BitArray::ZERO }
}

/// `BitSlice::set` with `true`: sets the bit at `index` and leaves every other bit as it was.
/// The call panics on an index outside the array, which `requires` leaves out.
#[verifier::external_body]
pub(crate) fn bit_array_set(bits: &mut BitByte, index: usize)
    requires
        index < 8,
    ensures
        bit_array_ones(*final(bits)) == bit_array_ones(*old(bits)).insert(index as int),
{
    bits.bits.set(index, true);
}

/// `Index<usize>` of `BitSlice`: reads the bit at `index`.
/// The call panics on an index outside the array, which `requires` leaves out.
#[verifier::external_body]
pub(crate) fn bit_array_get(bits: &BitByte, index: usize) -> (bit: bool)
    requires
        index < 8,
    ensures
        bit == bit_array_ones(*bits).contains(index as int),
{
    bits.bits[index]
}

/// `BitOr` of two bit arrays of one length: a bit of the result is set where it is set in
/// either operand.
#[verifier::external_body]
pub(crate) fn bit_array_or(a: &BitByte, b: &BitByte) -> (bits: BitByte)
    ensures
        bit_array_ones(bits) == bit_array_ones(*a).union(bit_array_ones(*b)),
{
    BitByte { bits: a.bits | b.bits }
}

} // verus!
