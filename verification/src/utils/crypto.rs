//! Keccak-256 hashing and recovery of a signer's address from a signature.

use crate::errors::BridgeError;
use crate::state::Address;
use vstd::prelude::*;
use vstd::slice::slice_subrange;

verus! {

/// Error type of `solana_program::secp256k1_recover::secp256k1_recover`,
/// carried through opaquely.
#[verifier::external_type_specification]
#[verifier::external_body]
#[allow(deprecated)]
pub struct ExSecp256k1RecoverError(solana_program::secp256k1_recover::Secp256k1RecoverError);

/// The Keccak-256 digest of `data`, as `solana_program::keccak::hash`
/// computes it.
pub uninterp spec fn keccak256(data: Seq<u8>) -> Seq<u8>;

/// The 64-byte public key that `solana_program::secp256k1_recover::secp256k1_recover`
/// recovers from a message hash of 32 bytes, a recovery id and a compact
/// signature of 64 bytes, or `None` where it reports an error. Nothing is
/// said of it on other lengths.
pub uninterp spec fn secp256k1_recovered(hash: Seq<u8>, recovery_id: u8, signature: Seq<u8>)
    -> Option<Seq<u8>>;

/// Calls `solana_program::keccak::hash` and returns the digest's 32 bytes.
/// Trusted: the digest is a function of the input bytes alone, named
/// [`keccak256`]; nothing else is claimed of it.
#[verifier::external_body]
#[allow(deprecated)]
pub fn keccak_hash(data: &[u8]) -> (digest: [u8; 32])
    ensures
        digest@ == keccak256(data@),
{
    solana_program::keccak::hash(data).to_bytes()
}

/// Calls `solana_program::secp256k1_recover::secp256k1_recover` on a hash of
/// 32 bytes and a compact signature of 64 bytes. Trusted: on inputs of these
/// lengths, whether it succeeds, and the key it yields, depend on the three
/// arguments alone and are named [`secp256k1_recovered`]; a recovery id or a
/// signature that it does not accept comes back as an error. Other lengths
/// are left out: the outside function validates them only off-chain.
#[verifier::external_body]
#[allow(deprecated)]
fn secp256k1_recover_key(hash: &[u8], recovery_id: u8, signature: &[u8]) -> (recovered: Result<
    [u8; 64],
    solana_program::secp256k1_recover::Secp256k1RecoverError,
>)
    requires
        hash@.len() == 32,
        signature@.len() == 64,
    ensures
        match recovered {
            Ok(key) => secp256k1_recovered(hash@, recovery_id, signature@) == Some(key@),
            Err(_) => secp256k1_recovered(hash@, recovery_id, signature@) is None,
        },
{
    match solana_program::secp256k1_recover::secp256k1_recover(hash, recovery_id, signature) {
        Ok(key) => Ok(key.to_bytes()),
        Err(e) => Err(e),
    }
}

/// The recovery indicator after normalization: the values 27 and above are
/// lowered by 27, all others stand as they are.
pub open spec fn spec_normalized_recovery_id(v: u8) -> u8 {
    if v >= 27 {
        (v - 27) as u8
    } else {
        v
    }
}

/// The recovery id to use for the indicator byte `v`: `Some(0)` or `Some(1)`
/// for the bytes 0, 1, 27 and 28, `None` for every other byte.
pub open spec fn spec_recovery_id(v: u8) -> Option<u8> {
    if spec_normalized_recovery_id(v) <= 1 {
        Some(spec_normalized_recovery_id(v))
    } else {
        None
    }
}

/// Normalizes the recovery indicator of a signature and rejects every value
/// that does not come out as 0 or 1.
pub fn recovery_id(v: u8) -> (id: Option<u8>)
    ensures
        id == spec_recovery_id(v),
        id is Some <==> (v == 0 || v == 1 || v == 27 || v == 28),
{
    let normalized: u8 = if v >= 27 {
        v - 27
    } else {
        v
    };
    if normalized <= 1 {
        Some(normalized)
    } else {
        None
    }
}

/// The address that belongs to the digest of a public key: its last 20 bytes.
pub open spec fn spec_address_of_digest(digest: Seq<u8>) -> Seq<u8> {
    digest.subrange(12, 32)
}

/// Takes the address out of the Keccak-256 digest of a public key.
pub fn address_of_digest(digest: &[u8; 32]) -> (address: Address)
    ensures
        address@ == spec_address_of_digest(digest@),
{
    let mut address: Address = [0u8; 20];
    let mut i: usize = 0;
    while i < 20
        invariant
            i <= 20,
            forall|k: int| 0 <= k < i ==> address@[k] == digest@[12 + k],
        decreases 20 - i,
    {
        address[i] = digest[12 + i];
        i += 1;
    }
    assert(address@ =~= spec_address_of_digest(digest@));
    address
}

/// The address of the key that signed `hash` with the 65-byte signature
/// `signature` (64 bytes of compact signature, then the recovery indicator),
/// or `None` where the indicator is out of range or no key can be recovered.
pub open spec fn spec_recover_address(hash: Seq<u8>, signature: Seq<u8>) -> Option<Seq<u8>> {
    match spec_recovery_id(signature[64]) {
        Some(id) => match secp256k1_recovered(hash, id, signature.subrange(0, 64)) {
            Some(key) => Some(spec_address_of_digest(keccak256(key))),
            None => None,
        },
        None => None,
    }
}

/// Recovers the address of the signer of `hash_bytes` from `sig`. Fails with
/// `InvalidSignatures` exactly where [`spec_recover_address`] is `None`.
pub fn recover_address(hash_bytes: &[u8; 32], sig: &[u8; 65]) -> (recovered: Result<
    Address,
    BridgeError,
>)
    ensures
        match recovered {
            Ok(address) => spec_recover_address(hash_bytes@, sig@) == Some(address@),
            Err(e) => e == BridgeError::InvalidSignatures && spec_recover_address(
                hash_bytes@,
                sig@,
            ) is None,
        },
{
    let id = match recovery_id(sig[64]) {
        Some(id) => id,
        None => { return Err(BridgeError::InvalidSignatures); },
    };
    let signature = slice_subrange(sig.as_slice(), 0, 64);
    match secp256k1_recover_key(hash_bytes.as_slice(), id, signature) {
        Ok(key) => {
            let digest = keccak_hash(key.as_slice());
            Ok(address_of_digest(&digest))
        },
        Err(_) => Err(BridgeError::InvalidSignatures),
    }
}

} // verus!
