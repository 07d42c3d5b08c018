//! Trusted boundary around `fixedbitset::FixedBitSet`, the packed bit array
//! that stores the grid. Each wrapper's contract states, over the abstract
//! bit sequence `bits_of`, what the corresponding `FixedBitSet` method does.

use vstd::prelude::*;
use fixedbitset::FixedBitSet;

verus! {

#[verifier::external_type_specification]
#[verifier::external_body]
pub struct ExFixedBitSet(FixedBitSet);

/// The bits a `FixedBitSet` holds, in index order.
pub uninterp spec fn bits_of(s: FixedBitSet) -> Seq<bool>;

/// Relies on FixedBitSet::with_capacity: a set of `bits` bits, all clear.
#[verifier::external_body]
pub(crate) fn fbs_with_capacity(bits: usize) -> (r: FixedBitSet)
    ensures
        bits_of(r).len() == bits,
        forall|i: int| 0 <= i < bits ==> !bits_of(r)[i],
{
    FixedBitSet::with_capacity(bits)
}

/// Relies on FixedBitSet::set: writes one bit; panics out of range,
/// so the range is required here.
#[verifier::external_body]
pub(crate) fn fbs_set(s: &mut FixedBitSet, bit: usize, enabled: bool)
    requires
        bit < bits_of(*old(s)).len(),
    ensures
        bits_of(*final(s)) == bits_of(*old(s)).update(bit as int, enabled),
{
    s.set(bit, enabled)
}

/// Relies on FixedBitSet::contains: reads one in-range bit.
#[verifier::external_body]
pub(crate) fn fbs_contains(s: &FixedBitSet, bit: usize) -> (r: bool)
    requires
        bit < bits_of(*s).len(),
    ensures
        r == bits_of(*s)[bit as int],
{
    s.contains(bit)
}

/// Relies on FixedBitSet::toggle: inverts one bit; panics out of range,
/// so the range is required here.
#[verifier::external_body]
pub(crate) fn fbs_toggle(s: &mut FixedBitSet, bit: usize)
    requires
        bit < bits_of(*old(s)).len(),
    ensures
        bits_of(*final(s)) == bits_of(*old(s)).update(
            bit as int,
            !bits_of(*old(s))[bit as int],
        ),
{
    s.toggle(bit)
}

/// Relies on FixedBitSet's Clone impl: a field-for-field copy.
#[verifier::external_body]
pub(crate) fn fbs_clone(s: &FixedBitSet) -> (r: FixedBitSet)
    ensures
        bits_of(r) == bits_of(*s),
{
    s.clone()
}

/// Relies on FixedBitSet::as_slice: the backing `u32` blocks, bit `i`
/// stored in block `i / 32` at position `i % 32`.
#[verifier::external_body]
pub(crate) fn fbs_as_slice(s: &FixedBitSet) -> (r: &[u32])
    ensures
        r@.len() == (bits_of(*s).len() + 31) / 32,
        forall|i: int|
            0 <= i < bits_of(*s).len() ==> (bits_of(*s)[i] == ((r@[i / 32] >> ((i % 32) as u32))
                & 1u32 == 1u32)),
{
    s.as_slice()
}

} // verus!
