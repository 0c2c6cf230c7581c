//! The outbound track, second step: confirming a burn against a quorum of
//! validator signatures, so that relayers release the funds on the external
//! chain.

use crate::authenticator::{count_valid_signers, signature_views, spec_count_valid_signers};
use crate::errors::BridgeError;
use crate::guard::{is_expired, spec_is_expired};
use crate::state::{Address, BridgeConfig, BridgeMessage, BurnOrder, Identity, ValidatorSet};
use vstd::prelude::*;

verus! {

/// Published when a burn has been confirmed.
#[derive(Clone, Copy, Debug, PartialEq, Eq)]
pub struct BurnConfirmed {
    pub order_id: [u8; 32],
    pub amount: u64,
    pub evm_recipient: Address,
    pub confirmed_at: i64,
}

/// The records that a confirmation works on. `burn_order_key` is the key
/// under which the host keeps the burn order.
#[derive(Clone, Copy, Debug, PartialEq, Eq)]
pub struct ConfirmUnlock {
    pub config: BridgeConfig,
    pub burn_order: BurnOrder,
    pub validator_set: ValidatorSet,
    pub burn_order_key: Identity,
}

/// The verdict on a confirmation before any signature is looked at. In this
/// order: the burn order must not have been executed, else `Replay`; the
/// message must not be expired, else `Expired`.
pub open spec fn spec_check_unlock_allowed(ctx: ConfirmUnlock, message: BridgeMessage, now: i64)
    -> Result<(), BridgeError> {
    if ctx.burn_order.executed {
        Err(BridgeError::Replay)
    } else if spec_is_expired(message.timestamp, now) {
        Err(BridgeError::Expired)
    } else {
        Ok(())
    }
}

/// The verdict on a confirmation whose message was signed by `valid_count`
/// distinct authorized validators. After the checks of
/// [`spec_check_unlock_allowed`] the count must reach the threshold, else
/// `ThresholdNotMet`.
pub open spec fn spec_check_unlock(
    ctx: ConfirmUnlock,
    message: BridgeMessage,
    valid_count: nat,
    now: i64,
) -> Result<(), BridgeError> {
    if spec_check_unlock_allowed(ctx, message, now) is Err {
        spec_check_unlock_allowed(ctx, message, now)
    } else if valid_count < ctx.config.validator_threshold {
        Err(BridgeError::ThresholdNotMet)
    } else {
        Ok(())
    }
}

/// The records after a confirmation: the burn order is executed, nothing
/// else has changed.
pub open spec fn spec_unlocked(ctx: ConfirmUnlock) -> ConfirmUnlock {
    ConfirmUnlock { burn_order: BurnOrder { executed: true, ..ctx.burn_order }, ..ctx }
}

/// The event of a confirmation at time `now`.
pub open spec fn spec_unlock_event(ctx: ConfirmUnlock, now: i64) -> BurnConfirmed {
    BurnConfirmed {
        order_id: ctx.burn_order_key,
        amount: ctx.burn_order.amount,
        evm_recipient: ctx.burn_order.evm_recipient,
        confirmed_at: now,
    }
}

/// Runs the checks that need no signature.
pub fn check_unlock_allowed(ctx: &ConfirmUnlock, message: &BridgeMessage, now: i64) -> (verdict:
    Result<(), BridgeError>)
    ensures
        verdict == spec_check_unlock_allowed(*ctx, *message, now),
{
    if ctx.burn_order.executed {
        Err(BridgeError::Replay)
    } else if is_expired(message.timestamp, now) {
        Err(BridgeError::Expired)
    } else {
        Ok(())
    }
}

/// Decides a confirmation whose message was signed by `valid_count`
/// distinct authorized validators, and commits it by marking the burn order
/// executed. On failure nothing changes.
pub fn settle_unlock(
    ctx: &mut ConfirmUnlock,
    message: &BridgeMessage,
    valid_count: u8,
    now: i64,
) -> (result: Result<BurnConfirmed, BridgeError>)
    ensures
        match result {
            Ok(event) => {
                &&& spec_check_unlock(*old(ctx), *message, valid_count as nat, now) is Ok
                &&& *final(ctx) == spec_unlocked(*old(ctx))
                &&& event == spec_unlock_event(*old(ctx), now)
            },
            Err(e) => {
                &&& spec_check_unlock(*old(ctx), *message, valid_count as nat, now) == Err::<
                    (),
                    BridgeError,
                >(e)
                &&& *final(ctx) == *old(ctx)
            },
        },
{
    match check_unlock_allowed(ctx, message, now) {
        Err(e) => { return Err(e); },
        Ok(()) => {},
    }
    if valid_count < ctx.config.validator_threshold {
        return Err(BridgeError::ThresholdNotMet);
    }
    ctx.burn_order.executed = true;
    Ok(
        BurnConfirmed {
            order_id: ctx.burn_order_key,
            amount: ctx.burn_order.amount,
            evm_recipient: ctx.burn_order.evm_recipient,
            confirmed_at: now,
        },
    )
}

/// Confirms the burn order on the strength of `signatures` over
/// `bridge_msg`. The checks that need no signature come first, so an
/// executed order fails with `Replay` whatever the signatures are. A
/// signature from which no address can be recovered is skipped and counts
/// for nothing.
pub fn confirm_unlock_handler(
    ctx: &mut ConfirmUnlock,
    bridge_msg: BridgeMessage,
    signatures: Vec<[u8; 65]>,
    now: i64,
) -> (result: Result<BurnConfirmed, BridgeError>)
    ensures
        match result {
            Ok(event) => {
                &&& spec_check_unlock(
                    *old(ctx),
                    bridge_msg,
                    spec_count_valid_signers(
                        old(ctx).validator_set,
                        bridge_msg,
                        signature_views(signatures@),
                    ),
                    now,
                ) is Ok
                &&& *final(ctx) == spec_unlocked(*old(ctx))
                &&& event == spec_unlock_event(*old(ctx), now)
            },
            Err(e) => {
                &&& spec_check_unlock(
                    *old(ctx),
                    bridge_msg,
                    spec_count_valid_signers(
                        old(ctx).validator_set,
                        bridge_msg,
                        signature_views(signatures@),
                    ),
                    now,
                ) == Err::<(), BridgeError>(e)
                &&& *final(ctx) == *old(ctx)
            },
        },
{
    match check_unlock_allowed(ctx, &bridge_msg, now) {
        Err(e) => { return Err(e); },
        Ok(()) => {},
    }
    let valid_count = count_valid_signers(&ctx.validator_set, &bridge_msg, &signatures);
    settle_unlock(ctx, &bridge_msg, valid_count, now)
}

/// Idempotence: once a confirmation has succeeded, every further one on the
/// same burn order fails with `Replay`, whatever its message, its
/// signatures and the time are.
pub proof fn lemma_unlock_succeeds_once(
    ctx: ConfirmUnlock,
    message: BridgeMessage,
    valid_count: nat,
    now: i64,
    again: BridgeMessage,
    again_count: nat,
    later: i64,
)
    requires
        spec_check_unlock(ctx, message, valid_count, now) is Ok,
    ensures
        spec_check_unlock(spec_unlocked(ctx), again, again_count, later) == Err::<
            (),
            BridgeError,
        >(BridgeError::Replay),
{
}

/// A confirmation succeeds only on a quorum: under a well-formed
/// configuration at least one distinct authorized validator has signed, and
/// at least as many as the threshold asks for. The burn order goes from not
/// executed to executed and keeps its amount and recipient; the totals stay.
pub proof fn lemma_unlock_needs_quorum(
    ctx: ConfirmUnlock,
    message: BridgeMessage,
    valid_count: nat,
    now: i64,
)
    requires
        ctx.config.wf(),
        spec_check_unlock(ctx, message, valid_count, now) is Ok,
    ensures
        valid_count >= ctx.config.validator_threshold >= 1,
        !ctx.burn_order.executed && spec_unlocked(ctx).burn_order.executed,
        spec_unlocked(ctx).burn_order.amount == ctx.burn_order.amount,
        spec_unlocked(ctx).burn_order.evm_recipient == ctx.burn_order.evm_recipient,
        spec_unlocked(ctx).config == ctx.config,
{
}

} // verus!
