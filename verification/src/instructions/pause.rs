//! The pause flag: pausing and unpausing the bridge.

use crate::errors::BridgeError;
use crate::state::{BridgeConfig, Identity};
use crate::utils::bytes::bytes_eq;
use vstd::prelude::*;

verus! {

/// The configuration whose pause flag is set, and the identity of the caller.
#[derive(Clone, Copy, Debug, PartialEq, Eq)]
pub struct SetPaused {
    pub config: BridgeConfig,
    pub admin: Identity,
}

/// Whether the caller is the registered admin.
pub open spec fn spec_is_admin(ctx: SetPaused) -> bool {
    ctx.admin@ == ctx.config.admin@
}

/// Sets the pause flag to `paused` for the registered admin, and changes
/// nothing else. Every other caller fails with `Unauthorized`, and nothing changes.
pub fn set_paused_handler(ctx: &mut SetPaused, paused: bool) -> (result: Result<(), BridgeError>)
    ensures
        spec_is_admin(*old(ctx)) ==> result is Ok && *final(ctx) == (SetPaused {
            config: BridgeConfig { paused, ..old(ctx).config },
            admin: old(ctx).admin,
        }),
        !spec_is_admin(*old(ctx)) ==> result == Err::<(), BridgeError>(BridgeError::Unauthorized)
            && *final(ctx) == *old(ctx),
{
    if !bytes_eq(&ctx.admin, &ctx.config.admin) {
        return Err(BridgeError::Unauthorized);
    }
    ctx.config.paused = paused;
    Ok(())
}

/// Pauses the bridge: mints, burns and rotations fail with `Paused` until
/// it is unpaused.
pub fn pause_handler(ctx: &mut SetPaused) -> (result: Result<(), BridgeError>)
    ensures
        spec_is_admin(*old(ctx)) ==> result is Ok && *final(ctx) == (SetPaused {
            config: BridgeConfig { paused: true, ..old(ctx).config },
            admin: old(ctx).admin,
        }),
        !spec_is_admin(*old(ctx)) ==> result == Err::<(), BridgeError>(BridgeError::Unauthorized)
            && *final(ctx) == *old(ctx),
{
    set_paused_handler(ctx, true)
}

/// Unpauses the bridge.
pub fn unpause_handler(ctx: &mut SetPaused) -> (result: Result<(), BridgeError>)
    ensures
        spec_is_admin(*old(ctx)) ==> result is Ok && *final(ctx) == (SetPaused {
            config: BridgeConfig { paused: false, ..old(ctx).config },
            admin: old(ctx).admin,
        }),
        !spec_is_admin(*old(ctx)) ==> result == Err::<(), BridgeError>(BridgeError::Unauthorized)
            && *final(ctx) == *old(ctx),
{
    set_paused_handler(ctx, false)
}

} // verus!
