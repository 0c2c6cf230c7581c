//! Message authentication: which authorized validators signed a message, each
//! counted once however many of the signatures are theirs.

use crate::registry::lemma_members_bounded;
use crate::state::{address_views, Address, BridgeMessage, ValidatorSet, MAX_VALIDATORS};
use crate::utils::bytes::bytes_eq;
use crate::utils::crypto::{recover_address, spec_recover_address};
use vstd::prelude::*;

verus! {

/// The authorized validators among `signers`, as a set: an address belongs to
/// it when it is a member of `validator_set` and at least one entry of
/// `signers` holds it. Entries that are `None` stand for signatures from
/// which no address could be recovered.
pub open spec fn distinct_signers(validator_set: ValidatorSet, signers: Seq<Option<Seq<u8>>>) -> Set<
    Seq<u8>,
> {
    Set::new(|address: Seq<u8>| validator_set.is_member(address) && signers.contains(Some(address)))
}

/// The number of distinct authorized validators among `signers`.
pub open spec fn distinct_signer_count(
    validator_set: ValidatorSet,
    signers: Seq<Option<Seq<u8>>>,
) -> nat {
    distinct_signers(validator_set, signers).len()
}

/// A batch of recovered signers with each address as a byte sequence.
pub open spec fn signer_views(signers: Seq<Option<Address>>) -> Seq<Option<Seq<u8>>> {
    Seq::new(
        signers.len(),
        |i: int|
            match signers[i] {
                Some(address) => Some(address@),
                None => None,
            },
    )
}

/// A batch of signatures with each signature as a byte sequence.
pub open spec fn signature_views(signatures: Seq<[u8; 65]>) -> Seq<Seq<u8>> {
    Seq::new(signatures.len(), |i: int| signatures[i]@)
}

/// What is recovered from each signature of a batch over `hash`, in order.
pub open spec fn spec_recover_signers(hash: Seq<u8>, signatures: Seq<Seq<u8>>) -> Seq<
    Option<Seq<u8>>,
> {
    Seq::new(signatures.len(), |i: int| spec_recover_address(hash, signatures[i]))
}

/// The number of distinct authorized validators that signed `message` in the
/// batch `signatures`.
pub open spec fn spec_count_valid_signers(
    validator_set: ValidatorSet,
    message: BridgeMessage,
    signatures: Seq<Seq<u8>>,
) -> nat {
    distinct_signer_count(validator_set, spec_recover_signers(message.digest(), signatures))
}

/// Whether `seen` already holds `address`.
fn holds_address(seen: &Vec<Address>, address: &Address) -> (found: bool)
    ensures
        found == address_views(seen@).contains(address@),
{
    let mut k: usize = 0;
    while k < seen.len()
        invariant
            k <= seen.len(),
            forall|j: int| 0 <= j < k ==> address_views(seen@)[j] != address@,
        decreases seen.len() - k,
    {
        if bytes_eq(&seen[k], address) {
            assert(address_views(seen@)[k as int] == address@);
            return true;
        }
        k += 1;
    }
    false
}

/// Counts the distinct authorized validators among the recovered signers of
/// a batch. An address counts the first time it is seen, and only if it is a
/// member of `validator_set`; an entry without an address counts for nothing.
pub fn count_distinct_signers(validator_set: &ValidatorSet, signers: &Vec<Option<Address>>) -> (count:
    u8)
    ensures
        count == distinct_signer_count(*validator_set, signer_views(signers@)),
        count <= MAX_VALIDATORS,
{
    let mut seen: Vec<Address> = Vec::new();
    let mut i: usize = 0;
    while i < signers.len()
        invariant
            i <= signers.len(),
            address_views(seen@).no_duplicates(),
            address_views(seen@).to_set() =~= distinct_signers(
                *validator_set,
                signer_views(signers@).take(i as int),
            ),
        decreases signers.len() - i,
    {
        let ghost views = signer_views(signers@);
        let ghost old_seen = address_views(seen@);
        let mut counted: bool = false;
        match &signers[i] {
            Some(address) => {
                if validator_set.is_validator(address) && !holds_address(&seen, address) {
                    seen.push(*address);
                    counted = true;
                }
            },
            None => {},
        }
        proof {
            let new_seen = address_views(seen@);
            let prev = views.take(i as int);
            let next = views.take(i + 1);
            assert(next =~= prev.push(views[i as int]));
            if counted {
                assert(new_seen =~= old_seen.push(signers@[i as int]->0@));
            } else {
                assert(new_seen =~= old_seen);
            }
            let target = distinct_signers(*validator_set, next);
            assert(old_seen.to_set() == distinct_signers(*validator_set, prev));
            assert forall|a: Seq<u8>| new_seen.to_set().contains(a) implies target.contains(a) by {
                let k = choose|k: int| 0 <= k < new_seen.len() && new_seen[k] == a;
                if k < old_seen.len() {
                    assert(old_seen[k] == a);
                    assert(old_seen.to_set().contains(a));
                    assert(distinct_signers(*validator_set, prev).contains(a));
                    let j = choose|j: int| 0 <= j < prev.len() && prev[j] == Some(a);
                    assert(next[j] == Some(a));
                } else {
                    assert(next[i as int] == Some(a));
                }
            }
            assert forall|a: Seq<u8>| target.contains(a) implies new_seen.to_set().contains(a) by {
                let j = choose|j: int| 0 <= j < next.len() && next[j] == Some(a);
                if j < i {
                    assert(prev[j] == Some(a));
                    assert(distinct_signers(*validator_set, prev).contains(a));
                    assert(old_seen.to_set().contains(a));
                } else if counted {
                    assert(new_seen[old_seen.len() as int] == a);
                } else {
                    assert(views[i as int] == Some(a));
                    assert(old_seen.contains(a));
                }
                if old_seen.contains(a) {
                    let k = choose|k: int| 0 <= k < old_seen.len() && old_seen[k] == a;
                    assert(new_seen[k] == a);
                }
            }
            assert(new_seen.to_set() =~= target);
            if counted {
                assert forall|x: int, y: int|
                    0 <= x < new_seen.len() && 0 <= y < new_seen.len() && x != y implies new_seen[x]
                    != new_seen[y] by {
                    if x < old_seen.len() && y < old_seen.len() {
                        assert(old_seen[x] != old_seen[y]);
                    } else if x < old_seen.len() {
                        assert(old_seen[x] == new_seen[x]);
                    } else {
                        assert(old_seen[y] == new_seen[y]);
                    }
                }
            }
        }
        i += 1;
    }
    proof {
        assert(signer_views(signers@).take(i as int) =~= signer_views(signers@));
        address_views(seen@).unique_seq_to_set();
        lemma_distinct_signers_bounded(*validator_set, signer_views(signers@));
    }
    seen.len() as u8
}

/// Recovers the signer of `hash` from each signature of a batch. A signature
/// from which no address can be recovered yields `None` in its place and does
/// not stop the batch.
pub fn recover_signers(hash: &[u8; 32], signatures: &Vec<[u8; 65]>) -> (signers: Vec<
    Option<Address>,
>)
    ensures
        signer_views(signers@) == spec_recover_signers(hash@, signature_views(signatures@)),
{
    let mut signers: Vec<Option<Address>> = Vec::new();
    let mut i: usize = 0;
    while i < signatures.len()
        invariant
            i <= signatures.len(),
            signers.len() == i,
            forall|k: int|
                0 <= k < i ==> #[trigger] signer_views(signers@)[k] == spec_recover_address(
                    hash@,
                    signatures@[k]@,
                ),
        decreases signatures.len() - i,
    {
        let ghost before = signer_views(signers@);
        let signer: Option<Address> = match recover_address(hash, &signatures[i]) {
            Ok(address) => Some(address),
            Err(_) => None,
        };
        signers.push(signer);
        assert forall|k: int| 0 <= k < i + 1 implies #[trigger] signer_views(signers@)[k]
            == spec_recover_address(hash@, signatures@[k]@) by {
            if k < i {
                assert(signer_views(signers@)[k] == before[k]);
            }
        }
        i += 1;
    }
    assert(signer_views(signers@) =~= spec_recover_signers(hash@, signature_views(signatures@)));
    signers
}

/// Counts the distinct authorized validators that signed `message` in the
/// batch `signatures`. Whether the count meets a threshold is for the caller
/// to decide.
pub fn count_valid_signers(
    validator_set: &ValidatorSet,
    message: &BridgeMessage,
    signatures: &Vec<[u8; 65]>,
) -> (count: u8)
    ensures
        count == spec_count_valid_signers(*validator_set, *message, signature_views(signatures@)),
        count <= MAX_VALIDATORS,
{
    let hash = message.hash();
    let signers = recover_signers(&hash, signatures);
    count_distinct_signers(validator_set, &signers)
}

/// The distinct authorized signers of any batch are finitely many, and no
/// more than the validator set has slots.
pub proof fn lemma_distinct_signers_bounded(
    validator_set: ValidatorSet,
    signers: Seq<Option<Seq<u8>>>,
)
    ensures
        distinct_signers(validator_set, signers).finite(),
        distinct_signer_count(validator_set, signers) <= MAX_VALIDATORS,
{
    let slots = validator_set.slots();
    let found = distinct_signers(validator_set, signers);
    vstd::seq_lib::seq_to_set_is_finite(slots);
    slots.lemma_cardinality_of_set();
    assert(found.subset_of(slots.to_set()));
    vstd::set_lib::lemma_len_subset(found, slots.to_set());
}

/// Under a well-formed validator set no batch counts more distinct
/// authorized signers than there are validators.
pub proof fn lemma_count_bounded_by_validators(
    validator_set: ValidatorSet,
    signers: Seq<Option<Seq<u8>>>,
)
    requires
        validator_set.wf(),
    ensures
        distinct_signer_count(validator_set, signers) <= validator_set.count,
{
    lemma_members_bounded(validator_set);
    assert(distinct_signers(validator_set, signers).subset_of(validator_set.members()));
    vstd::set_lib::lemma_len_subset(
        distinct_signers(validator_set, signers),
        validator_set.members(),
    );
}

/// A batch that holds every signer of another batch counts at least as many
/// distinct authorized signers.
pub proof fn lemma_count_grows_with_signers(
    validator_set: ValidatorSet,
    fewer: Seq<Option<Seq<u8>>>,
    more: Seq<Option<Seq<u8>>>,
)
    requires
        forall|signer: Option<Seq<u8>>| fewer.contains(signer) ==> more.contains(signer),
    ensures
        distinct_signers(validator_set, fewer).subset_of(distinct_signers(validator_set, more)),
        distinct_signer_count(validator_set, fewer) <= distinct_signer_count(validator_set, more),
{
    lemma_distinct_signers_bounded(validator_set, more);
    vstd::set_lib::lemma_len_subset(
        distinct_signers(validator_set, fewer),
        distinct_signers(validator_set, more),
    );
}

/// Two batches that hold the same signers, in whatever order and however
/// often, count the same distinct authorized signers.
pub proof fn lemma_count_depends_on_signers_only(
    validator_set: ValidatorSet,
    one: Seq<Option<Seq<u8>>>,
    other: Seq<Option<Seq<u8>>>,
)
    requires
        forall|signer: Option<Seq<u8>>| one.contains(signer) <==> other.contains(signer),
    ensures
        distinct_signers(validator_set, one) == distinct_signers(validator_set, other),
        distinct_signer_count(validator_set, one) == distinct_signer_count(validator_set, other),
{
    assert(distinct_signers(validator_set, one) =~= distinct_signers(validator_set, other));
}

/// One more signer who is an authorized validator and not yet in the batch
/// raises the count by exactly one.
pub proof fn lemma_count_new_signer(
    validator_set: ValidatorSet,
    signers: Seq<Option<Seq<u8>>>,
    address: Seq<u8>,
)
    requires
        validator_set.is_member(address),
        !signers.contains(Some(address)),
    ensures
        distinct_signer_count(validator_set, signers.push(Some(address))) == distinct_signer_count(
            validator_set,
            signers,
        ) + 1,
{
    let before = distinct_signers(validator_set, signers);
    let after = distinct_signers(validator_set, signers.push(Some(address)));
    lemma_distinct_signers_bounded(validator_set, signers);
    assert forall|a: Seq<u8>| after.contains(a) == before.insert(address).contains(a) by {
        let pushed = signers.push(Some(address));
        if pushed.contains(Some(a)) {
            let j = choose|j: int| 0 <= j < pushed.len() && pushed[j] == Some(a);
            if j < signers.len() {
                assert(signers[j] == Some(a));
            }
        }
        if signers.contains(Some(a)) {
            let j = choose|j: int| 0 <= j < signers.len() && signers[j] == Some(a);
            assert(pushed[j] == Some(a));
        }
        assert(pushed[signers.len() as int] == Some(address));
    }
    assert(after =~= before.insert(address));
}

/// One more entry that counts for nothing leaves the count as it is: an
/// entry without an address, a signer who is no authorized validator, or a
/// signer already in the batch.
pub proof fn lemma_count_ignores_signer(
    validator_set: ValidatorSet,
    signers: Seq<Option<Seq<u8>>>,
    signer: Option<Seq<u8>>,
)
    requires
        signer is None || !validator_set.is_member(signer->0) || signers.contains(signer),
    ensures
        distinct_signer_count(validator_set, signers.push(signer)) == distinct_signer_count(
            validator_set,
            signers,
        ),
{
    let before = distinct_signers(validator_set, signers);
    let pushed = signers.push(signer);
    let after = distinct_signers(validator_set, pushed);
    assert forall|a: Seq<u8>| after.contains(a) == before.contains(a) by {
        if pushed.contains(Some(a)) {
            let j = choose|j: int| 0 <= j < pushed.len() && pushed[j] == Some(a);
            if j < signers.len() {
                assert(signers[j] == Some(a));
            }
        }
        if signers.contains(Some(a)) {
            let j = choose|j: int| 0 <= j < signers.len() && signers[j] == Some(a);
            assert(pushed[j] == Some(a));
        }
    }
    assert(after =~= before);
}

/// What is recovered from a batch holds a signer exactly when one of its
/// signatures recovers to that signer.
pub proof fn lemma_recovered_signers_contain(
    hash: Seq<u8>,
    signatures: Seq<Seq<u8>>,
    signer: Option<Seq<u8>>,
)
    ensures
        spec_recover_signers(hash, signatures).contains(signer) <==> exists|i: int|
            0 <= i < signatures.len() && spec_recover_address(hash, #[trigger] signatures[i])
                == signer,
{
    let signers = spec_recover_signers(hash, signatures);
    if signers.contains(signer) {
        let i = choose|i: int| 0 <= i < signers.len() && signers[i] == signer;
        assert(spec_recover_address(hash, signatures[i]) == signer);
    }
    if exists|i: int|
        0 <= i < signatures.len() && spec_recover_address(hash, #[trigger] signatures[i])
            == signer {
        let i = choose|i: int|
            0 <= i < signatures.len() && spec_recover_address(hash, #[trigger] signatures[i])
                == signer;
        assert(signers[i] == signer);
    }
}

/// Monotonicity: appending signatures to a batch never lowers the count of
/// distinct authorized signers of a message.
pub proof fn lemma_count_monotone(
    validator_set: ValidatorSet,
    message: BridgeMessage,
    signatures: Seq<Seq<u8>>,
    added: Seq<Seq<u8>>,
)
    ensures
        spec_count_valid_signers(validator_set, message, signatures) <= spec_count_valid_signers(
            validator_set,
            message,
            signatures + added,
        ),
{
    let hash = message.digest();
    let fewer = spec_recover_signers(hash, signatures);
    let more = spec_recover_signers(hash, signatures + added);
    assert forall|signer: Option<Seq<u8>>| fewer.contains(signer) implies more.contains(signer) by {
        let i = choose|i: int| 0 <= i < fewer.len() && fewer[i] == signer;
        assert((signatures + added)[i] == signatures[i]);
        assert(more[i] == signer);
    }
    lemma_count_grows_with_signers(validator_set, fewer, more);
}

/// A further signature of an authorized validator who has not signed in the
/// batch raises the count by exactly one.
pub proof fn lemma_count_new_signature(
    validator_set: ValidatorSet,
    message: BridgeMessage,
    signatures: Seq<Seq<u8>>,
    signature: Seq<u8>,
)
    requires
        spec_recover_address(message.digest(), signature) is Some,
        validator_set.is_member(spec_recover_address(message.digest(), signature)->0),
        forall|i: int|
            0 <= i < signatures.len() ==> spec_recover_address(
                message.digest(),
                #[trigger] signatures[i],
            ) != spec_recover_address(message.digest(), signature),
    ensures
        spec_count_valid_signers(validator_set, message, signatures.push(signature))
            == spec_count_valid_signers(validator_set, message, signatures) + 1,
{
    let hash = message.digest();
    let signer = spec_recover_address(hash, signature);
    let signers = spec_recover_signers(hash, signatures);
    lemma_recovered_signers_contain(hash, signatures, signer);
    assert(spec_recover_signers(hash, signatures.push(signature)) =~= signers.push(signer));
    lemma_count_new_signer(validator_set, signers, signer->0);
}

/// Duplicates count once: a further signature that recovers to a signer
/// already in the batch, to no authorized validator, or to nothing at all,
/// leaves the count as it is.
pub proof fn lemma_count_ignores_signature(
    validator_set: ValidatorSet,
    message: BridgeMessage,
    signatures: Seq<Seq<u8>>,
    signature: Seq<u8>,
)
    requires
        ({
            let signer = spec_recover_address(message.digest(), signature);
            signer is None || !validator_set.is_member(signer->0) || exists|i: int|
                0 <= i < signatures.len() && spec_recover_address(
                    message.digest(),
                    #[trigger] signatures[i],
                ) == signer
        }),
    ensures
        spec_count_valid_signers(validator_set, message, signatures.push(signature))
            == spec_count_valid_signers(validator_set, message, signatures),
{
    let hash = message.digest();
    let signer = spec_recover_address(hash, signature);
    let signers = spec_recover_signers(hash, signatures);
    lemma_recovered_signers_contain(hash, signatures, signer);
    assert(spec_recover_signers(hash, signatures.push(signature)) =~= signers.push(signer));
    lemma_count_ignores_signer(validator_set, signers, signer);
}

/// Order does not matter: two batches that hold the same signatures the same
/// number of times count the same distinct authorized signers of a message.
pub proof fn lemma_count_invariant_under_reordering(
    validator_set: ValidatorSet,
    message: BridgeMessage,
    signatures: Seq<Seq<u8>>,
    reordered: Seq<Seq<u8>>,
)
    requires
        signatures.to_multiset() == reordered.to_multiset(),
    ensures
        spec_count_valid_signers(validator_set, message, signatures) == spec_count_valid_signers(
            validator_set,
            message,
            reordered,
        ),
{
    let hash = message.digest();
    let one = spec_recover_signers(hash, signatures);
    let other = spec_recover_signers(hash, reordered);
    assert forall|signer: Option<Seq<u8>>| one.contains(signer) <==> other.contains(signer) by {
        lemma_recovered_signers_contain(hash, signatures, signer);
        lemma_recovered_signers_contain(hash, reordered, signer);
        if one.contains(signer) {
            let i = choose|i: int|
                0 <= i < signatures.len() && spec_recover_address(hash, #[trigger] signatures[i])
                    == signer;
            vstd::seq_lib::to_multiset_contains(signatures, signatures[i]);
            vstd::seq_lib::to_multiset_contains(reordered, signatures[i]);
            assert(signatures.contains(signatures[i]));
            let j = choose|j: int| 0 <= j < reordered.len() && reordered[j] == signatures[i];
            assert(spec_recover_address(hash, reordered[j]) == signer);
        }
        if other.contains(signer) {
            let i = choose|i: int|
                0 <= i < reordered.len() && spec_recover_address(hash, #[trigger] reordered[i])
                    == signer;
            vstd::seq_lib::to_multiset_contains(reordered, reordered[i]);
            vstd::seq_lib::to_multiset_contains(signatures, reordered[i]);
            assert(reordered.contains(reordered[i]));
            let j = choose|j: int| 0 <= j < signatures.len() && signatures[j] == reordered[i];
            assert(spec_recover_address(hash, signatures[j]) == signer);
        }
    }
    lemma_count_depends_on_signers_only(validator_set, one, other);
}

} // verus!
