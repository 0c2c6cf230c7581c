//! The inbound track: minting on the host ledger against a quorum of
//! validator signatures.

use crate::authenticator::{count_valid_signers, signature_views, spec_count_valid_signers};
use crate::errors::BridgeError;
use crate::guard::{is_expired, spec_is_expired};
use crate::state::{BridgeConfig, BridgeMessage, ExecutedMessage, ValidatorSet};
use vstd::prelude::*;

verus! {

/// Published when a mint has been authorized. It tells the host which
/// balance to credit, and by how much.
#[derive(Clone, Copy, Debug, PartialEq, Eq)]
pub struct MintExecuted {
    pub order_id: [u8; 32],
    pub amount: u64,
    pub recipient: [u8; 32],
    pub executed_at: i64,
}

/// The records that a mint works on. `executed` is the replay marker of the
/// order that the message names.
#[derive(Clone, Copy, Debug, PartialEq, Eq)]
pub struct ExecuteMint {
    pub config: BridgeConfig,
    pub validator_set: ValidatorSet,
    pub executed: ExecutedMessage,
}

/// The verdict on a mint before any signature is looked at. In this order:
/// the bridge must not be paused, else `Paused`; the message must not be
/// expired, else `Expired`; the order must not have been executed, else
/// `Replay`.
pub open spec fn spec_check_mint_allowed(ctx: ExecuteMint, message: BridgeMessage, now: i64)
    -> Result<(), BridgeError> {
    if ctx.config.paused {
        Err(BridgeError::Paused)
    } else if spec_is_expired(message.timestamp, now) {
        Err(BridgeError::Expired)
    } else if ctx.executed.executed {
        Err(BridgeError::Replay)
    } else {
        Ok(())
    }
}

/// The verdict on a mint whose message was signed by `valid_count` distinct
/// authorized validators. After the checks of [`spec_check_mint_allowed`]:
/// the count must reach the threshold, else `ThresholdNotMet`; the new total
/// must fit 64 bits, else `Overflow`.
pub open spec fn spec_check_mint(
    ctx: ExecuteMint,
    message: BridgeMessage,
    valid_count: nat,
    now: i64,
) -> Result<(), BridgeError> {
    if spec_check_mint_allowed(ctx, message, now) is Err {
        spec_check_mint_allowed(ctx, message, now)
    } else if valid_count < ctx.config.validator_threshold {
        Err(BridgeError::ThresholdNotMet)
    } else if ctx.config.total_minted + message.amount > u64::MAX {
        Err(BridgeError::Overflow)
    } else {
        Ok(())
    }
}

/// The records after a mint of `message`: the amount is added to the total
/// minted and the order is sealed.
pub open spec fn spec_minted(ctx: ExecuteMint, message: BridgeMessage) -> ExecuteMint {
    ExecuteMint {
        config: BridgeConfig {
            total_minted: (ctx.config.total_minted + message.amount) as u64,
            ..ctx.config
        },
        validator_set: ctx.validator_set,
        executed: ExecutedMessage { executed: true },
    }
}

/// The event of a mint of `message` at time `now`.
pub open spec fn spec_mint_event(message: BridgeMessage, now: i64) -> MintExecuted {
    MintExecuted {
        order_id: message.order_id,
        amount: message.amount,
        recipient: message.recipient,
        executed_at: now,
    }
}

/// Runs the checks that need no signature.
pub fn check_mint_allowed(ctx: &ExecuteMint, message: &BridgeMessage, now: i64) -> (verdict: Result<
    (),
    BridgeError,
>)
    ensures
        verdict == spec_check_mint_allowed(*ctx, *message, now),
{
    if ctx.config.paused {
        Err(BridgeError::Paused)
    } else if is_expired(message.timestamp, now) {
        Err(BridgeError::Expired)
    } else if ctx.executed.executed {
        Err(BridgeError::Replay)
    } else {
        Ok(())
    }
}

/// Decides a mint whose message was signed by `valid_count` distinct
/// authorized validators, and commits it: the total grows by the amount and
/// the order is sealed last. On failure nothing changes.
pub fn settle_mint(ctx: &mut ExecuteMint, message: &BridgeMessage, valid_count: u8, now: i64) -> (result:
    Result<MintExecuted, BridgeError>)
    ensures
        match result {
            Ok(event) => {
                &&& spec_check_mint(*old(ctx), *message, valid_count as nat, now) is Ok
                &&& *final(ctx) == spec_minted(*old(ctx), *message)
                &&& event == spec_mint_event(*message, now)
            },
            Err(e) => {
                &&& spec_check_mint(*old(ctx), *message, valid_count as nat, now) == Err::<
                    (),
                    BridgeError,
                >(e)
                &&& *final(ctx) == *old(ctx)
            },
        },
{
    match check_mint_allowed(ctx, message, now) {
        Err(e) => { return Err(e); },
        Ok(()) => {},
    }
    if valid_count < ctx.config.validator_threshold {
        return Err(BridgeError::ThresholdNotMet);
    }
    let total: u64 = match ctx.config.total_minted.checked_add(message.amount) {
        Some(total) => total,
        None => { return Err(BridgeError::Overflow); },
    };
    ctx.config.total_minted = total;
    ctx.executed.executed = true;
    Ok(
        MintExecuted {
            order_id: message.order_id,
            amount: message.amount,
            recipient: message.recipient,
            executed_at: now,
        },
    )
}

/// Authorizes and commits the mint that `bridge_msg` asks for, on the
/// strength of `signatures`. The checks that need no signature come first,
/// so an executed order fails with `Replay` whatever the signatures are. A
/// signature from which no address can be recovered is skipped and counts
/// for nothing.
pub fn execute_mint_handler(
    ctx: &mut ExecuteMint,
    bridge_msg: BridgeMessage,
    signatures: Vec<[u8; 65]>,
    now: i64,
) -> (result: Result<MintExecuted, BridgeError>)
    ensures
        match result {
            Ok(event) => {
                &&& spec_check_mint(
                    *old(ctx),
                    bridge_msg,
                    spec_count_valid_signers(
                        old(ctx).validator_set,
                        bridge_msg,
                        signature_views(signatures@),
                    ),
                    now,
                ) is Ok
                &&& *final(ctx) == spec_minted(*old(ctx), bridge_msg)
                &&& event == spec_mint_event(bridge_msg, now)
            },
            Err(e) => {
                &&& spec_check_mint(
                    *old(ctx),
                    bridge_msg,
                    spec_count_valid_signers(
                        old(ctx).validator_set,
                        bridge_msg,
                        signature_views(signatures@),
                    ),
                    now,
                ) == Err::<(), BridgeError>(e)
                &&& *final(ctx) == *old(ctx)
            },
        },
{
    match check_mint_allowed(ctx, &bridge_msg, now) {
        Err(e) => { return Err(e); },
        Ok(()) => {},
    }
    let valid_count = count_valid_signers(&ctx.validator_set, &bridge_msg, &signatures);
    settle_mint(ctx, &bridge_msg, valid_count, now)
}

/// Idempotence: once a mint has succeeded, every further mint on the same
/// records fails, whatever its signatures are. It fails with `Replay`
/// unless the message has expired by then, which is found first.
pub proof fn lemma_mint_succeeds_once(
    ctx: ExecuteMint,
    message: BridgeMessage,
    valid_count: nat,
    now: i64,
    again: BridgeMessage,
    again_count: nat,
    later: i64,
)
    requires
        spec_check_mint(ctx, message, valid_count, now) is Ok,
    ensures
        spec_check_mint(spec_minted(ctx, message), again, again_count, later) is Err,
        !spec_is_expired(again.timestamp, later) ==> spec_check_mint(
            spec_minted(ctx, message),
            again,
            again_count,
            later,
        ) == Err::<(), BridgeError>(BridgeError::Replay),
{
}

/// The total minted never wraps: a mint succeeds only where the sum fits,
/// and then the total is exactly that sum and no smaller than before.
pub proof fn lemma_mint_total_exact(
    ctx: ExecuteMint,
    message: BridgeMessage,
    valid_count: nat,
    now: i64,
)
    requires
        spec_check_mint(ctx, message, valid_count, now) is Ok,
    ensures
        spec_minted(ctx, message).config.total_minted == ctx.config.total_minted + message.amount,
        spec_minted(ctx, message).config.total_minted >= ctx.config.total_minted,
        spec_minted(ctx, message).config.total_burned == ctx.config.total_burned,
{
}

/// A mint of the largest amount on top of a total that is not zero fails,
/// and with `Overflow` where every earlier check passes.
pub proof fn lemma_mint_of_max_overflows(
    ctx: ExecuteMint,
    message: BridgeMessage,
    valid_count: nat,
    now: i64,
)
    requires
        ctx.config.total_minted > 0,
        message.amount == u64::MAX,
    ensures
        spec_check_mint(ctx, message, valid_count, now) is Err,
        spec_check_mint_allowed(ctx, message, now) is Ok && valid_count
            >= ctx.config.validator_threshold ==> spec_check_mint(ctx, message, valid_count, now)
            == Err::<(), BridgeError>(BridgeError::Overflow),
{
}

/// A mint succeeds only on a quorum: under a well-formed configuration at
/// least one distinct authorized validator has signed, and at least as many
/// as the threshold asks for. The mint keeps the configuration well formed.
pub proof fn lemma_mint_needs_quorum(
    ctx: ExecuteMint,
    message: BridgeMessage,
    valid_count: nat,
    now: i64,
)
    requires
        ctx.config.wf(),
        spec_check_mint(ctx, message, valid_count, now) is Ok,
    ensures
        valid_count >= ctx.config.validator_threshold >= 1,
        spec_minted(ctx, message).config.wf(),
{
}

} // verus!
