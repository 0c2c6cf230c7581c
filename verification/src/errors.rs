//! Failure taxonomy of the bridge.

use vstd::prelude::*;

verus! {

/// Every way a bridge operation can fail. An operation that fails leaves all
/// records it was given untouched.
#[derive(Clone, Copy, Debug, PartialEq, Eq, Hash, Structural)]
pub enum BridgeError {
    /// The operation is blocked while the bridge is paused.
    Paused,
    /// A signature is malformed or no key can be recovered from it.
    InvalidSignatures,
    /// The order has already been executed.
    Replay,
    /// The message timestamp lies outside the validity window.
    Expired,
    /// Too few distinct authorized signers, or a threshold outside `1..=count`.
    ThresholdNotMet,
    /// Reserved for a cross-check of the totals against external attestations.
    SupplyInvariant,
    /// The caller is not the registered admin.
    Unauthorized,
    /// A counter would leave its 64-bit range, or a capacity is exceeded.
    Overflow,
}

impl BridgeError {
    /// The text shown to users and relayers for this failure.
    pub open spec fn spec_message(self) -> Seq<char> {
        match self {
            BridgeError::Paused => "Bridge is paused"@,
            BridgeError::InvalidSignatures => "Invalid validator signatures"@,
            BridgeError::Replay => "Replay detected"@,
            BridgeError::Expired => "Message expired"@,
            BridgeError::ThresholdNotMet => "Threshold not met"@,
            BridgeError::SupplyInvariant => "Supply invariant violated"@,
            BridgeError::Unauthorized => "Unauthorized"@,
            BridgeError::Overflow => "Overflow occurred"@,
        }
    }

    /// The text shown to users and relayers for this failure.
    pub fn message(&self) -> (text: &'static str)
        ensures
            text@ == self.spec_message(),
    {
        match self {
            BridgeError::Paused => "Bridge is paused",
            BridgeError::InvalidSignatures => "Invalid validator signatures",
            BridgeError::Replay => "Replay detected",
            BridgeError::Expired => "Message expired",
            BridgeError::ThresholdNotMet => "Threshold not met",
            BridgeError::SupplyInvariant => "Supply invariant violated",
            BridgeError::Unauthorized => "Unauthorized",
            BridgeError::Overflow => "Overflow occurred",
        }
    }
}

} // verus!
