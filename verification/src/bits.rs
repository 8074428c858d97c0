//! The bit sets of the `specs` crate, as this library uses them: as sets of
//! indices that can be added to, asked and cleared. Nothing here is proved;
//! each contract says what the crate's source shows of the method it names.

use vstd::prelude::*;
use specs::BitSet;

verus! {

/// The number of indices that a bit set takes on every machine: on a machine
/// of 32 bits it takes no more, on one of 64 bits sixteen times as many.
pub const MAX_INDEX: usize = 1_048_576;

#[verifier::external_type_specification]
#[verifier::external_body]
pub struct ExBitSet(BitSet);

/// The indices that a bit set holds.
pub uninterp spec fn members(bits: BitSet) -> Set<int>;

/// `BitSet::new`: the set that it makes holds nothing.
#[verifier::external_body]
pub(crate) fn no_bits() -> (bits: BitSet)
    ensures
        members(bits) == Set::<int>::empty(),
{
    BitSet::new()
}

/// `BitSet::add`: the set holds `id` afterwards and whatever it held before;
/// the result says whether it held `id` already. Above its limit the set
/// panics, so only an `id` below the limit of the smallest machine is let in.
#[verifier::external_body]
pub(crate) fn add_bit(bits: &mut BitSet, id: u32) -> (held: bool)
    requires
        id < MAX_INDEX,
    ensures
        members(*final(bits)) == members(*old(bits)).insert(id as int),
        held == members(*old(bits)).contains(id as int),
{
    bits.add(id)
}

/// `BitSet::contains`: whether the set holds `id`.
#[verifier::external_body]
pub(crate) fn has_bit(bits: &BitSet, id: u32) -> (held: bool)
    ensures
        held == members(*bits).contains(id as int),
{
    bits.contains(id)
}

/// `BitSet::clear`: the set holds nothing afterwards.
#[verifier::external_body]
pub(crate) fn clear_bits(bits: &mut BitSet)
    ensures
        members(*final(bits)) == Set::<int>::empty(),
{
    bits.clear()
}

} // verus!
