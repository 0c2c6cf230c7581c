use bridge_program::authenticator::{
    count_distinct_signers, count_valid_signers, recover_signers,
};
use bridge_program::registry::{fill_slots, is_zero_address};
use bridge_program::state::{BridgeMessage, ValidatorSet};
use bridge_program::utils::bytes::bytes_eq;
use bridge_program::utils::crypto::{address_of_digest, keccak_hash};

const A: [u8; 20] = [0xA1; 20];
const B: [u8; 20] = [0xB2; 20];
const C: [u8; 20] = [0xC3; 20];
const D: [u8; 20] = [0xD4; 20];
const ZERO: [u8; 20] = [0; 20];

fn set_of(list: &[[u8; 20]]) -> ValidatorSet {
    ValidatorSet { validators: fill_slots(&list.to_vec()), count: list.len() as u8, epoch: 1 }
}

fn secret(n: u8) -> libsecp256k1::SecretKey {
    let mut bytes = [0u8; 32];
    bytes[31] = n;
    libsecp256k1::SecretKey::parse(&bytes).unwrap()
}

fn address(n: u8) -> [u8; 20] {
    let public = libsecp256k1::PublicKey::from_secret_key(&secret(n));
    address_of_digest(&keccak_hash(&public.serialize()[1..65]))
}

fn sign_hash(hash: &[u8; 32], n: u8) -> [u8; 65] {
    let (signature, id) = libsecp256k1::sign(&libsecp256k1::Message::parse(hash), &secret(n));
    let mut sig = [0u8; 65];
    sig[..64].copy_from_slice(&signature.serialize());
    sig[64] = id.serialize();
    sig
}

fn message() -> BridgeMessage {
    BridgeMessage {
        source_chain_id: 8453,
        destination_chain_id: 1,
        order_id: [0x5A; 32],
        amount: 1_000,
        sender: [0x11; 20],
        recipient: [0x22; 32],
        nonce: 1,
        timestamp: 1_700_000_000,
    }
}

#[test]
fn bytes_eq_compares_every_byte() {
    assert!(bytes_eq(&A, &A));
    assert!(!bytes_eq(&A, &B));
    let mut almost = A;
    almost[19] ^= 1;
    assert!(!bytes_eq(&A, &almost));
    let mut almost = A;
    almost[0] ^= 1;
    assert!(!bytes_eq(&A, &almost));
    assert!(bytes_eq(&[0u8; 0], &[0u8; 0]));
}

#[test]
fn is_zero_address_needs_every_byte_zero() {
    assert!(is_zero_address(&ZERO));
    assert!(!is_zero_address(&A));
    let mut almost = ZERO;
    almost[19] = 1;
    assert!(!is_zero_address(&almost));
}

#[test]
fn is_validator_finds_members_only() {
    let set = set_of(&[A, B, C]);
    assert!(set.is_validator(&A));
    assert!(set.is_validator(&B));
    assert!(set.is_validator(&C));
    assert!(!set.is_validator(&D));
}

#[test]
fn zero_address_is_never_a_validator() {
    assert!(!set_of(&[A, B, C]).is_validator(&ZERO));
    assert!(!set_of(&[]).is_validator(&ZERO));
    assert!(!set_of(&[ZERO, A]).is_validator(&ZERO));
    let full: Vec<[u8; 20]> = (1u8..=10).map(|i| [i; 20]).collect();
    assert!(!set_of(&full).is_validator(&ZERO));
    assert!(set_of(&full).is_validator(&[10u8; 20]));
}

#[test]
fn count_of_two_distinct_validators_is_two() {
    let set = set_of(&[A, B, C]);
    assert_eq!(count_distinct_signers(&set, &vec![Some(A), Some(C)]), 2);
}

#[test]
fn count_takes_a_repeated_signer_once() {
    let set = set_of(&[A, B, C]);
    assert_eq!(count_distinct_signers(&set, &vec![Some(A), Some(A)]), 1);
    assert_eq!(count_distinct_signers(&set, &vec![Some(A), Some(B), Some(A), Some(B), Some(A)]), 2);
}

#[test]
fn count_ignores_strangers_failures_and_zero() {
    let set = set_of(&[A, B, C]);
    assert_eq!(count_distinct_signers(&set, &vec![]), 0);
    assert_eq!(count_distinct_signers(&set, &vec![None, None]), 0);
    assert_eq!(count_distinct_signers(&set, &vec![Some(D), Some(ZERO)]), 0);
    assert_eq!(count_distinct_signers(&set, &vec![None, Some(B), Some(D), Some(ZERO), Some(C)]), 2);
    assert_eq!(count_distinct_signers(&set_of(&[]), &vec![Some(A), Some(ZERO)]), 0);
}

#[test]
fn count_is_the_same_in_any_order() {
    let set = set_of(&[A, B, C]);
    let orders = [
        vec![Some(A), Some(B), None, Some(D)],
        vec![Some(D), None, Some(B), Some(A)],
        vec![None, Some(A), Some(D), Some(B)],
        vec![Some(B), Some(D), Some(A), None],
    ];
    for order in orders.iter() {
        assert_eq!(count_distinct_signers(&set, order), 2);
    }
}

#[test]
fn count_never_falls_as_signers_are_added() {
    let set = set_of(&[A, B, C]);
    let batch = vec![Some(D), Some(A), Some(A), None, Some(C), Some(B), Some(C), Some(ZERO)];
    let expected = [0u8, 0, 1, 1, 1, 2, 3, 3, 3];
    for n in 0..=batch.len() {
        assert_eq!(count_distinct_signers(&set, &batch[..n].to_vec()), expected[n]);
    }
}

#[test]
fn count_reaches_the_capacity_and_no_further() {
    let full: Vec<[u8; 20]> = (1u8..=10).map(|i| [i; 20]).collect();
    let set = set_of(&full);
    let mut batch: Vec<Option<[u8; 20]>> = Vec::new();
    for round in 0..30 {
        for a in full.iter() {
            batch.push(Some(*a));
        }
        batch.push(Some([100 + round as u8; 20]));
    }
    assert_eq!(count_distinct_signers(&set, &batch), 10);
}

#[test]
fn recover_signers_keeps_the_order_of_the_batch() {
    let hash = message().hash();
    let mut broken = sign_hash(&hash, 1);
    broken[64] = 9;
    let signers =
        recover_signers(&hash, &vec![sign_hash(&hash, 3), broken, sign_hash(&hash, 1), [0u8; 65]]);
    assert_eq!(signers, vec![Some(address(3)), None, Some(address(1)), None]);
    assert_eq!(recover_signers(&hash, &Vec::new()), Vec::<Option<[u8; 20]>>::new());
}

#[test]
fn count_valid_signers_of_signed_message() {
    let m = message();
    let hash = m.hash();
    let set = set_of(&[address(1), address(2), address(3)]);
    let batch = vec![sign_hash(&hash, 1), sign_hash(&hash, 3)];
    assert_eq!(count_valid_signers(&set, &m, &batch), 2);
    let batch = vec![sign_hash(&hash, 1), sign_hash(&hash, 1)];
    assert_eq!(count_valid_signers(&set, &m, &batch), 1);
    let batch = vec![sign_hash(&hash, 4), sign_hash(&hash, 5)];
    assert_eq!(count_valid_signers(&set, &m, &batch), 0);
    assert_eq!(count_valid_signers(&set, &m, &Vec::new()), 0);
}

#[test]
fn count_valid_signers_accepts_both_forms_of_the_indicator() {
    let m = message();
    let hash = m.hash();
    let set = set_of(&[address(1), address(2), address(3)]);
    let plain = sign_hash(&hash, 2);
    let mut raised = plain;
    raised[64] += 27;
    assert_eq!(count_valid_signers(&set, &m, &vec![plain]), 1);
    assert_eq!(count_valid_signers(&set, &m, &vec![raised]), 1);
    assert_eq!(count_valid_signers(&set, &m, &vec![plain, raised]), 1);
}

#[test]
fn count_valid_signers_rejects_signatures_over_another_message() {
    let m = message();
    let mut other = message();
    other.amount += 1;
    let set = set_of(&[address(1), address(2), address(3)]);
    let batch = vec![sign_hash(&other.hash(), 1), sign_hash(&other.hash(), 2)];
    assert_eq!(count_valid_signers(&set, &m, &batch), 0);
    assert_eq!(count_valid_signers(&set, &other, &batch), 2);
}

#[test]
fn one_corrupt_signature_does_not_deny_a_quorum() {
    let m = message();
    let hash = m.hash();
    let set = set_of(&[address(1), address(2), address(3)]);
    let mut garbage = [0xFFu8; 65];
    garbage[64] = 27;
    let mut bad_indicator = sign_hash(&hash, 2);
    bad_indicator[64] = 29;
    let batch = vec![garbage, sign_hash(&hash, 1), bad_indicator, [0u8; 65], sign_hash(&hash, 3)];
    assert_eq!(count_valid_signers(&set, &m, &batch), 2);
}

#[test]
fn count_valid_signers_is_the_same_in_any_order() {
    let m = message();
    let hash = m.hash();
    let set = set_of(&[address(1), address(2), address(3)]);
    let s1 = sign_hash(&hash, 1);
    let s2 = sign_hash(&hash, 2);
    let s9 = sign_hash(&hash, 9);
    assert_eq!(count_valid_signers(&set, &m, &vec![s1, s2, s9]), 2);
    assert_eq!(count_valid_signers(&set, &m, &vec![s9, s2, s1]), 2);
    assert_eq!(count_valid_signers(&set, &m, &vec![s2, s9, s1, s1]), 2);
}
