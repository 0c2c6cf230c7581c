//! Expiry protection: a message is valid only for a fixed window after its
//! timestamp.

use vstd::prelude::*;

verus! {

/// Length of the validity window in seconds.
pub const EXPIRY_WINDOW: i64 = 600;

/// A message stamped `timestamp` is expired at time `now` once a full
/// window has passed since the stamp. A stamp in the future is not expired.
pub open spec fn spec_is_expired(timestamp: i64, now: i64) -> bool {
    now - timestamp >= EXPIRY_WINDOW
}

/// Whether a message stamped `timestamp` is expired at time `now`. The
/// difference is taken without overflow for every pair of times.
pub fn is_expired(timestamp: i64, now: i64) -> (expired: bool)
    ensures
        expired == spec_is_expired(timestamp, now),
{
    let elapsed: i128 = now as i128 - timestamp as i128;
    elapsed >= EXPIRY_WINDOW as i128
}

/// Expiry is permanent: a message that is expired at one time is expired at
/// every later time.
pub proof fn lemma_expired_stays_expired(timestamp: i64, now: i64, later: i64)
    requires
        spec_is_expired(timestamp, now),
        now <= later,
    ensures
        spec_is_expired(timestamp, later),
{
}

/// The window is closed below and open above: a message is valid during
/// the first `EXPIRY_WINDOW` seconds from its stamp and expired from the
/// first second after them.
pub proof fn lemma_expiry_boundary(timestamp: i64, now: i64)
    ensures
        now - timestamp == EXPIRY_WINDOW ==> spec_is_expired(timestamp, now),
        now - timestamp == EXPIRY_WINDOW - 1 ==> !spec_is_expired(timestamp, now),
        spec_is_expired(timestamp, now) <==> now >= timestamp + EXPIRY_WINDOW,
{
}

} // verus!
