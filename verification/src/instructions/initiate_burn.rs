//! The outbound track, first step: burning on the host ledger and recording
//! the order that awaits its unlock.

use crate::errors::BridgeError;
use crate::state::{Address, BridgeConfig, BurnOrder, Identity};
use vstd::prelude::*;

verus! {

/// Published when a burn has been initiated. It tells the host how much to
/// debit from the caller.
#[derive(Clone, Copy, Debug, PartialEq, Eq)]
pub struct BurnInitiated {
    pub order_id: [u8; 32],
    pub amount: u64,
    pub evm_recipient: Address,
}

/// The records that a burn works on. `burn_order` is the fresh record that
/// the burn fills in, `burn_order_key` the key under which the host keeps it.
#[derive(Clone, Copy, Debug, PartialEq, Eq)]
pub struct InitiateBurn {
    pub config: BridgeConfig,
    pub burn_order: BurnOrder,
    pub burn_order_key: Identity,
}

/// The verdict on a burn of `amount`. In this order: the bridge must not be
/// paused, else `Paused`; the amount must be positive, else
/// `InvalidSignatures`; the new total must fit 64 bits, else `Overflow`.
pub open spec fn spec_check_burn(ctx: InitiateBurn, amount: u64) -> Result<(), BridgeError> {
    if ctx.config.paused {
        Err(BridgeError::Paused)
    } else if amount == 0 {
        Err(BridgeError::InvalidSignatures)
    } else if ctx.config.total_burned + amount > u64::MAX {
        Err(BridgeError::Overflow)
    } else {
        Ok(())
    }
}

/// The records after a burn of `amount` for `evm_recipient`: the order is
/// recorded as not executed and the amount is added to the total burned.
pub open spec fn spec_burned(ctx: InitiateBurn, amount: u64, evm_recipient: Address)
    -> InitiateBurn {
    InitiateBurn {
        config: BridgeConfig {
            total_burned: (ctx.config.total_burned + amount) as u64,
            ..ctx.config
        },
        burn_order: BurnOrder { amount, evm_recipient, executed: false },
        burn_order_key: ctx.burn_order_key,
    }
}

/// Records a burn of `amount` that is to be unlocked for `evm_recipient` on
/// the external chain. On failure nothing changes.
pub fn initiate_burn_handler(ctx: &mut InitiateBurn, amount: u64, evm_recipient: Address) -> (result:
    Result<BurnInitiated, BridgeError>)
    ensures
        match result {
            Ok(event) => {
                &&& spec_check_burn(*old(ctx), amount) is Ok
                &&& *final(ctx) == spec_burned(*old(ctx), amount, evm_recipient)
                &&& event == (BurnInitiated {
                    order_id: old(ctx).burn_order_key,
                    amount,
                    evm_recipient,
                })
            },
            Err(e) => {
                &&& spec_check_burn(*old(ctx), amount) == Err::<(), BridgeError>(e)
                &&& *final(ctx) == *old(ctx)
            },
        },
{
    if ctx.config.paused {
        return Err(BridgeError::Paused);
    }
    if amount == 0 {
        return Err(BridgeError::InvalidSignatures);
    }
    let total: u64 = match ctx.config.total_burned.checked_add(amount) {
        Some(total) => total,
        None => { return Err(BridgeError::Overflow); },
    };
    ctx.burn_order = BurnOrder { amount, evm_recipient, executed: false };
    ctx.config.total_burned = total;
    Ok(BurnInitiated { order_id: ctx.burn_order_key, amount, evm_recipient })
}

/// The total burned never wraps: a burn succeeds only where the sum fits,
/// and then the total is exactly that sum and larger than before.
pub proof fn lemma_burn_total_exact(ctx: InitiateBurn, amount: u64, evm_recipient: Address)
    requires
        spec_check_burn(ctx, amount) is Ok,
    ensures
        spec_burned(ctx, amount, evm_recipient).config.total_burned == ctx.config.total_burned
            + amount,
        spec_burned(ctx, amount, evm_recipient).config.total_burned > ctx.config.total_burned,
        spec_burned(ctx, amount, evm_recipient).config.total_minted == ctx.config.total_minted,
        ctx.config.wf() ==> spec_burned(ctx, amount, evm_recipient).config.wf(),
{
}

/// A burn of the largest amount on top of a total that is not zero fails,
/// and with `Overflow` unless the bridge is paused.
pub proof fn lemma_burn_of_max_overflows(ctx: InitiateBurn, amount: u64)
    requires
        ctx.config.total_burned > 0,
        amount == u64::MAX,
    ensures
        spec_check_burn(ctx, amount) is Err,
        !ctx.config.paused ==> spec_check_burn(ctx, amount) == Err::<(), BridgeError>(
            BridgeError::Overflow,
        ),
{
}

} // verus!
