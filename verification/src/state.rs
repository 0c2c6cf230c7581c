//! The persisted records of the bridge and the canonical cross-chain message.

use vstd::prelude::*;

verus! {

/// Capacity of the validator set.
pub const MAX_VALIDATORS: usize = 10;

/// A 20-byte address on the external chain.
pub type Address = [u8; 20];

/// A 32-byte identity on the host ledger.
pub type Identity = [u8; 32];

/// The all-zero address. It fills unused validator slots and never counts as
/// a validator.
pub open spec fn zero_address() -> Seq<u8> {
    Seq::new(20, |i: int| 0u8)
}

/// A list of addresses with each address as a byte sequence.
pub open spec fn address_views(addresses: Seq<Address>) -> Seq<Seq<u8>> {
    Seq::new(addresses.len(), |k: int| addresses[k]@)
}

/// Global configuration and accounting totals of one bridge instance.
#[derive(Clone, Copy, Debug, PartialEq, Eq)]
pub struct BridgeConfig {
    pub admin: Identity,
    pub paused: bool,
    pub validator_threshold: u8,
    pub validator_count: u8,
    pub total_minted: u64,
    pub total_burned: u64,
    pub bump: u8,
}

impl BridgeConfig {
    /// The threshold policy: at least one signer is required, and never more
    /// than there are validators.
    pub open spec fn wf(self) -> bool {
        &&& 1 <= self.validator_threshold <= self.validator_count
        &&& self.validator_count <= MAX_VALIDATORS
    }

    /// The number of distinct authorized signers that an authorization needs.
    pub fn threshold(&self) -> (threshold: u8)
        ensures
            threshold == self.validator_threshold,
    {
        self.validator_threshold
    }
}

/// The authorized validator addresses: a fixed arena of slots, of which the
/// first `count` are in use.
#[derive(Clone, Copy, Debug, PartialEq, Eq)]
pub struct ValidatorSet {
    pub validators: [Address; MAX_VALIDATORS],
    pub count: u8,
    pub epoch: u64,
}

impl ValidatorSet {
    /// All slots, used or not, each as a byte sequence.
    pub open spec fn slots(self) -> Seq<Seq<u8>> {
        address_views(self.validators@)
    }

    /// The addresses in use, in slot order.
    pub open spec fn active(self) -> Seq<Seq<u8>> {
        self.slots().take(self.count as int)
    }

    /// At most `MAX_VALIDATORS` slots are in use and every other slot holds
    /// the zero address.
    pub open spec fn wf(self) -> bool {
        &&& self.count <= MAX_VALIDATORS
        &&& forall|i: int|
            self.count <= i < MAX_VALIDATORS ==> #[trigger] self.slots()[i] == zero_address()
    }

    /// Whether `address` is an authorized validator: it is not the zero
    /// address and some slot holds it.
    pub open spec fn is_member(self, address: Seq<u8>) -> bool {
        address != zero_address() && self.slots().contains(address)
    }

    /// The set of authorized validators.
    pub open spec fn members(self) -> Set<Seq<u8>> {
        Set::new(|address: Seq<u8>| self.is_member(address))
    }
}

/// Replay marker of one inbound order.
#[derive(Clone, Copy, Debug, PartialEq, Eq)]
pub struct ExecutedMessage {
    pub executed: bool,
}

/// A burn on the host ledger that awaits its unlock on the external chain.
#[derive(Clone, Copy, Debug, PartialEq, Eq)]
pub struct BurnOrder {
    pub amount: u64,
    pub evm_recipient: Address,
    pub executed: bool,
}

/// The canonical cross-chain message that validators sign.
#[derive(Clone, Copy, Debug, PartialEq, Eq)]
pub struct BridgeMessage {
    pub source_chain_id: u64,
    pub destination_chain_id: u64,
    pub order_id: [u8; 32],
    pub amount: u64,
    pub sender: Address,
    pub recipient: [u8; 32],
    pub nonce: u64,
    pub timestamp: i64,
}

} // verus!
