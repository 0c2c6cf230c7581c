//! Validator registry: the membership test, the threshold policy and the
//! slot arena that a rotation writes.

use crate::errors::BridgeError;
use crate::state::{
    address_views, zero_address, Address, BridgeConfig, ValidatorSet, MAX_VALIDATORS,
};
use crate::utils::bytes::bytes_eq;
use vstd::prelude::*;

verus! {

/// Whether `address` is the zero address.
pub fn is_zero_address(address: &Address) -> (zero: bool)
    ensures
        zero == (address@ == zero_address()),
{
    let mut i: usize = 0;
    while i < 20
        invariant
            i <= 20,
            forall|k: int| 0 <= k < i ==> address@[k] == 0u8,
        decreases 20 - i,
    {
        if address[i] != 0 {
            assert(zero_address()[i as int] == 0u8);
            return false;
        }
        i += 1;
    }
    assert(address@ =~= zero_address());
    true
}

impl ValidatorSet {
    /// Membership test: whether `address` is an authorized validator.
    pub fn is_validator(&self, address: &Address) -> (member: bool)
        ensures
            member == self.is_member(address@),
    {
        if is_zero_address(address) {
            return false;
        }
        let mut i: usize = 0;
        while i < MAX_VALIDATORS
            invariant
                i <= MAX_VALIDATORS,
                address@ != zero_address(),
                forall|k: int| 0 <= k < i ==> self.slots()[k] != address@,
            decreases MAX_VALIDATORS - i,
        {
            if bytes_eq(&self.validators[i], address) {
                assert(self.slots()[i as int] == address@);
                return true;
            }
            i += 1;
        }
        false
    }
}

/// The verdict on a validator list of `count` addresses with threshold
/// `threshold`: the list must fit the capacity, else `Overflow`; the
/// threshold must lie in `1..=count`, else `ThresholdNotMet`.
pub open spec fn spec_check_rotation(count: nat, threshold: u8) -> Result<(), BridgeError> {
    if count > MAX_VALIDATORS {
        Err(BridgeError::Overflow)
    } else if threshold < 1 || threshold > count {
        Err(BridgeError::ThresholdNotMet)
    } else {
        Ok(())
    }
}

/// Checks a validator list of `count` addresses and its threshold against
/// the threshold policy and the capacity.
pub fn check_rotation(count: usize, threshold: u8) -> (verdict: Result<(), BridgeError>)
    ensures
        verdict == spec_check_rotation(count as nat, threshold),
        verdict is Ok <==> 1 <= threshold <= count <= MAX_VALIDATORS,
{
    if count > MAX_VALIDATORS {
        Err(BridgeError::Overflow)
    } else if threshold < 1 || threshold as usize > count {
        Err(BridgeError::ThresholdNotMet)
    } else {
        Ok(())
    }
}

/// The slot arena for a validator list: its addresses in order, then the
/// zero address in every slot that is left. Addresses beyond the capacity
/// have no slot.
pub open spec fn spec_fill_slots(validators: Seq<Seq<u8>>) -> Seq<Seq<u8>> {
    Seq::new(
        MAX_VALIDATORS as nat,
        |i: int|
            if i < validators.len() {
                validators[i]
            } else {
                zero_address()
            },
    )
}

/// Lays a validator list out in a fresh slot arena.
pub fn fill_slots(validators: &Vec<Address>) -> (slots: [Address; MAX_VALIDATORS])
    ensures
        address_views(slots@) == spec_fill_slots(address_views(validators@)),
{
    let mut slots: [Address; MAX_VALIDATORS] = [[0u8; 20];MAX_VALIDATORS];
    assert forall|k: int| 0 <= k < MAX_VALIDATORS implies (#[trigger] slots@[k])@
        == zero_address() by {
        assert(slots@[k]@ =~= zero_address());
    }
    let mut i: usize = 0;
    while i < MAX_VALIDATORS && i < validators.len()
        invariant
            i <= MAX_VALIDATORS,
            i <= validators.len(),
            forall|k: int| 0 <= k < i ==> (#[trigger] slots@[k])@ == validators@[k]@,
            forall|k: int| i <= k < MAX_VALIDATORS ==> (#[trigger] slots@[k])@ == zero_address(),
        decreases MAX_VALIDATORS - i,
    {
        slots[i] = validators[i];
        i += 1;
    }
    assert(address_views(slots@) =~= spec_fill_slots(address_views(validators@)));
    slots
}

/// A validator set and a configuration agree when they record the same
/// number of validators.
pub open spec fn consistent(config: BridgeConfig, validator_set: ValidatorSet) -> bool {
    config.validator_count == validator_set.count
}

/// A slot arena filled from a list that fits the capacity is well formed
/// under the length of that list.
pub proof fn lemma_filled_slots_well_formed(validator_set: ValidatorSet, validators: Seq<Seq<u8>>)
    requires
        validators.len() <= MAX_VALIDATORS,
        validator_set.count == validators.len(),
        validator_set.slots() == spec_fill_slots(validators),
    ensures
        validator_set.wf(),
        validator_set.active() == validators,
{
    assert(validator_set.active() =~= validators);
}

/// In a well-formed validator set the authorized validators are the
/// addresses in use, the zero address left out.
pub proof fn lemma_members_are_active(validator_set: ValidatorSet, address: Seq<u8>)
    requires
        validator_set.wf(),
    ensures
        validator_set.is_member(address) <==> address != zero_address()
            && validator_set.active().contains(address),
{
    let slots = validator_set.slots();
    let active = validator_set.active();
    if validator_set.is_member(address) {
        let i = choose|i: int| 0 <= i < slots.len() && slots[i] == address;
        assert(active[i] == address);
    }
    if active.contains(address) {
        let i = choose|i: int| 0 <= i < active.len() && active[i] == address;
        assert(slots[i] == address);
    }
}

/// A well-formed validator set has no more authorized validators than
/// addresses in use.
pub proof fn lemma_members_bounded(validator_set: ValidatorSet)
    requires
        validator_set.wf(),
    ensures
        validator_set.members().finite(),
        validator_set.members().len() <= validator_set.count,
{
    let active = validator_set.active();
    vstd::seq_lib::seq_to_set_is_finite(active);
    active.lemma_cardinality_of_set();
    assert forall|a: Seq<u8>| validator_set.members().contains(a) implies active.to_set().contains(
        a,
    ) by {
        lemma_members_are_active(validator_set, a);
    }
    vstd::set_lib::lemma_len_subset(validator_set.members(), active.to_set());
}

} // verus!
