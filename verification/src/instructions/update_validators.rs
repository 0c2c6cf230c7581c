//! Rotation of the validator set by the admin.

use crate::errors::BridgeError;
use crate::registry::{
    check_rotation, consistent, fill_slots, lemma_filled_slots_well_formed, spec_check_rotation,
    spec_fill_slots,
};
use crate::state::{
    address_views, zero_address, Address, BridgeConfig, Identity, ValidatorSet, MAX_VALIDATORS,
};
use crate::utils::bytes::bytes_eq;
use vstd::prelude::*;

verus! {

/// Published when the validator set has been rotated.
#[derive(Clone, Copy, Debug, PartialEq, Eq)]
pub struct ValidatorsUpdated {
    pub epoch: u64,
    pub new_threshold: u8,
    pub validator_count: u8,
    pub updated_at: i64,
}

/// The records that a rotation works on, and the identity of the caller.
#[derive(Clone, Copy, Debug, PartialEq, Eq)]
pub struct UpdateValidators {
    pub config: BridgeConfig,
    pub validator_set: ValidatorSet,
    pub admin: Identity,
}

/// The verdict on a rotation to `count` validators with threshold
/// `threshold`. In this order: the caller must be the registered admin, else
/// `Unauthorized`; the bridge must not be paused, else `Paused`; the list
/// must fit the capacity, else `Overflow`; the threshold must lie in
/// `1..=count`, else `ThresholdNotMet`; the epoch counter must have room for
/// one more, else `Overflow`.
pub open spec fn spec_check_update(ctx: UpdateValidators, count: nat, threshold: u8) -> Result<
    (),
    BridgeError,
> {
    if ctx.admin@ != ctx.config.admin@ {
        Err(BridgeError::Unauthorized)
    } else if ctx.config.paused {
        Err(BridgeError::Paused)
    } else if spec_check_rotation(count, threshold) is Err {
        spec_check_rotation(count, threshold)
    } else if ctx.validator_set.epoch == u64::MAX {
        Err(BridgeError::Overflow)
    } else {
        Ok(())
    }
}

/// Replaces the validator set and the threshold, and raises the epoch by
/// one. On failure nothing changes.
pub fn update_validators_handler(
    ctx: &mut UpdateValidators,
    new_validators: Vec<Address>,
    new_threshold: u8,
    now: i64,
) -> (result: Result<ValidatorsUpdated, BridgeError>)
    ensures
        match result {
            Err(e) => {
                &&& spec_check_update(*old(ctx), new_validators@.len(), new_threshold) == Err::<
                    (),
                    BridgeError,
                >(e)
                &&& *final(ctx) == *old(ctx)
            },
            Ok(event) => {
                &&& spec_check_update(*old(ctx), new_validators@.len(), new_threshold) is Ok
                &&& final(ctx).admin == old(ctx).admin
                &&& final(ctx).config == (BridgeConfig {
                    validator_threshold: new_threshold,
                    validator_count: new_validators@.len() as u8,
                    ..old(ctx).config
                })
                &&& final(ctx).validator_set.slots() == spec_fill_slots(
                    address_views(new_validators@),
                )
                &&& final(ctx).validator_set.active() == address_views(new_validators@)
                &&& final(ctx).validator_set.count == new_validators@.len()
                &&& final(ctx).validator_set.epoch == old(ctx).validator_set.epoch + 1
                &&& event == (ValidatorsUpdated {
                    epoch: (old(ctx).validator_set.epoch + 1) as u64,
                    new_threshold,
                    validator_count: new_validators@.len() as u8,
                    updated_at: now,
                })
                &&& final(ctx).config.wf()
                &&& final(ctx).validator_set.wf()
                &&& consistent(final(ctx).config, final(ctx).validator_set)
            },
        },
{
    if !bytes_eq(&ctx.admin, &ctx.config.admin) {
        return Err(BridgeError::Unauthorized);
    }
    if ctx.config.paused {
        return Err(BridgeError::Paused);
    }
    match check_rotation(new_validators.len(), new_threshold) {
        Err(e) => { return Err(e); },
        Ok(()) => {},
    }
    let epoch: u64 = match ctx.validator_set.epoch.checked_add(1) {
        Some(epoch) => epoch,
        None => { return Err(BridgeError::Overflow); },
    };
    let count: u8 = new_validators.len() as u8;
    ctx.validator_set = ValidatorSet { validators: fill_slots(&new_validators), count, epoch };
    ctx.config.validator_count = count;
    ctx.config.validator_threshold = new_threshold;
    proof {
        lemma_filled_slots_well_formed(ctx.validator_set, address_views(new_validators@));
    }
    Ok(ValidatorsUpdated { epoch, new_threshold, validator_count: count, updated_at: now })
}

/// A rotation is accepted exactly when the caller is the admin, the bridge
/// is not paused, the list fits the capacity, the threshold lies in
/// `1..=count` and the epoch counter has room for one more.
pub proof fn lemma_update_accepted_iff_valid(ctx: UpdateValidators, count: nat, threshold: u8)
    ensures
        spec_check_update(ctx, count, threshold) is Ok <==> {
            &&& ctx.admin@ == ctx.config.admin@
            &&& !ctx.config.paused
            &&& 1 <= threshold <= count <= MAX_VALIDATORS
            &&& ctx.validator_set.epoch < u64::MAX
        },
{
}

/// Every accepted rotation raises the epoch: a rotation is accepted only
/// where one more fits the counter. At the last epoch every rotation fails,
/// and with `Overflow` where every earlier check passes.
pub proof fn lemma_epoch_advances(ctx: UpdateValidators, count: nat, threshold: u8)
    ensures
        spec_check_update(ctx, count, threshold) is Ok ==> ctx.validator_set.epoch + 1
            <= u64::MAX,
        ctx.validator_set.epoch == u64::MAX ==> spec_check_update(ctx, count, threshold) is Err,
        ctx.validator_set.epoch == u64::MAX && ctx.admin@ == ctx.config.admin@
            && !ctx.config.paused && spec_check_rotation(count, threshold) is Ok
            ==> spec_check_update(ctx, count, threshold) == Err::<(), BridgeError>(
            BridgeError::Overflow,
        ),
{
}

/// After a rotation the authorized validators are the addresses of the new
/// list, the zero address left out, and no others: an address of the old
/// set that is not in the new list counts no longer.
pub proof fn lemma_rotation_replaces_members(
    validator_set: ValidatorSet,
    new_validators: Seq<Seq<u8>>,
    address: Seq<u8>,
)
    requires
        new_validators.len() <= MAX_VALIDATORS,
        validator_set.slots() == spec_fill_slots(new_validators),
    ensures
        validator_set.is_member(address) <==> address != zero_address() && new_validators.contains(
            address,
        ),
{
    let slots = validator_set.slots();
    if slots.contains(address) && address != zero_address() {
        let i = choose|i: int| 0 <= i < slots.len() && slots[i] == address;
        assert(new_validators[i] == address);
    }
    if new_validators.contains(address) {
        let i = choose|i: int| 0 <= i < new_validators.len() && new_validators[i] == address;
        assert(slots[i] == address);
    }
}

} // verus!
