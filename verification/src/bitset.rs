//! What this crate takes on trust about `fixedbitset::FixedBitSet`, the
//! bit vector behind the display and the key pad.

use fixedbitset::FixedBitSet;
use vstd::prelude::*;

verus! {

/// `fixedbitset::FixedBitSet`, taken as it is: nothing inside a value is
/// visible here but what `bitset_bits` names.
#[verifier::external_type_specification]
#[verifier::external_body]
pub struct ExFixedBitSet(FixedBitSet);

/// The bits that a set holds, in index order. Its length is the set's
/// length in bits, set and unset ones alike.
pub uninterp spec fn bitset_bits(set: FixedBitSet) -> Seq<bool>;

/// `FixedBitSet::with_capacity`: a set of `bits` bits, all of them unset.
pub assume_specification[ FixedBitSet::with_capacity ](bits: usize) -> (set: FixedBitSet)
    ensures
        bitset_bits(set) == Seq::new(bits as nat, |i: int| false),
;

/// `FixedBitSet::len`: the length in bits.
pub assume_specification[ FixedBitSet::len ](set: &FixedBitSet) -> (len: usize)
    ensures
        len == bitset_bits(*set).len(),
;

/// `FixedBitSet::contains`: the bit at `bit`; a bit past the end reads as
/// unset.
pub assume_specification[ FixedBitSet::contains ](set: &FixedBitSet, bit: usize) -> (enabled: bool)
    ensures
        enabled == (bit < bitset_bits(*set).len() && bitset_bits(*set)[bit as int]),
;

/// `FixedBitSet::set`: writes one bit and leaves the others and the length
/// alone. It panics on a bit past the end, which `requires` leaves out.
pub assume_specification[ FixedBitSet::set ](set: &mut FixedBitSet, bit: usize, enabled: bool)
    requires
        bit < bitset_bits(*old(set)).len(),
    ensures
        bitset_bits(*final(set)) == bitset_bits(*old(set)).update(bit as int, enabled),
;

/// `FixedBitSet::clear`: unsets every bit and keeps the length.
pub assume_specification[ FixedBitSet::clear ](set: &mut FixedBitSet)
    ensures
        bitset_bits(*final(set)) == Seq::new(bitset_bits(*old(set)).len(), |i: int| false),
;

} // verus!
