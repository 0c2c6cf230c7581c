//! Creation of the bridge configuration and the first validator set.

use crate::errors::BridgeError;
use crate::registry::{
    check_rotation, consistent, fill_slots, lemma_filled_slots_well_formed, spec_check_rotation,
    spec_fill_slots,
};
use crate::state::{address_views, Address, BridgeConfig, Identity, ValidatorSet};
use vstd::prelude::*;

verus! {

/// Arguments of the initialization.
#[derive(Debug, PartialEq, Eq)]
pub struct InitializeArgs {
    pub validators: Vec<Address>,
    pub threshold: u8,
}

/// The records that the initialization writes, and the payer, who becomes
/// the admin.
#[derive(Clone, Copy, Debug, PartialEq, Eq)]
pub struct Initialize {
    pub config: BridgeConfig,
    pub validator_set: ValidatorSet,
    pub payer: Identity,
}

/// The configuration of a fresh bridge: unpaused, with zero totals.
pub open spec fn spec_initial_config(admin: Identity, count: u8, threshold: u8) -> BridgeConfig {
    BridgeConfig {
        admin,
        paused: false,
        validator_threshold: threshold,
        validator_count: count,
        total_minted: 0,
        total_burned: 0,
        bump: 0,
    }
}

/// Initializes the bridge with the payer as admin and the given validators
/// at epoch 1. Fails with `Overflow` where the list exceeds the capacity and
/// with `ThresholdNotMet` where the threshold is outside `1..=len`.
pub fn initialize_handler(ctx: &mut Initialize, args: InitializeArgs) -> (result: Result<
    (),
    BridgeError,
>)
    ensures
        result == spec_check_rotation(args.validators@.len(), args.threshold),
        result is Err ==> *final(ctx) == *old(ctx),
        result is Ok ==> {
            &&& final(ctx).payer == old(ctx).payer
            &&& final(ctx).config == spec_initial_config(
                old(ctx).payer,
                args.validators@.len() as u8,
                args.threshold,
            )
            &&& final(ctx).validator_set.slots() == spec_fill_slots(
                address_views(args.validators@),
            )
            &&& final(ctx).validator_set.active() == address_views(args.validators@)
            &&& final(ctx).validator_set.count == args.validators@.len()
            &&& final(ctx).validator_set.epoch == 1
            &&& final(ctx).config.wf()
            &&& final(ctx).validator_set.wf()
            &&& consistent(final(ctx).config, final(ctx).validator_set)
        },
{
    match check_rotation(args.validators.len(), args.threshold) {
        Err(e) => { return Err(e); },
        Ok(()) => {},
    }
    let count: u8 = args.validators.len() as u8;
    ctx.config =
    BridgeConfig {
        admin: ctx.payer,
        paused: false,
        validator_threshold: args.threshold,
        validator_count: count,
        total_minted: 0,
        total_burned: 0,
        bump: 0,
    };
    ctx.validator_set =
    ValidatorSet { validators: fill_slots(&args.validators), count, epoch: 1 };
    proof {
        lemma_filled_slots_well_formed(ctx.validator_set, address_views(args.validators@));
    }
    Ok(())
}

} // verus!
