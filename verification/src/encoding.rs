//! The canonical byte encoding of a bridge message: the pre-image that
//! validators hash and sign. Every integer is written little-endian at its
//! full width and every byte array as it stands, in field order, with no
//! padding and no length prefix.

use crate::state::BridgeMessage;
use crate::utils::crypto::{keccak256, keccak_hash};
use vstd::prelude::*;

verus! {

/// Width in bytes of an encoded message.
pub const ENCODED_LEN: usize = 124;

/// The `n` lowest base-256 digits of `x`, least significant first.
pub open spec fn le_bytes(x: nat, n: nat) -> Seq<u8>
    decreases n,
{
    if n == 0 {
        Seq::empty()
    } else {
        seq![(x % 256) as u8] + le_bytes(x / 256, (n - 1) as nat)
    }
}

/// The unsigned 64-bit number with the same bits as `t` in two's complement.
pub open spec fn twos_complement(t: i64) -> nat {
    if t >= 0 {
        t as nat
    } else {
        (t + 0x1_0000_0000_0000_0000) as nat
    }
}

/// Writing `n` digits yields `n` bytes.
pub proof fn lemma_le_bytes_len(x: nat, n: nat)
    ensures
        le_bytes(x, n).len() == n,
    decreases n,
{
    if n > 0 {
        lemma_le_bytes_len(x / 256, (n - 1) as nat);
    }
}

/// Appends the eight little-endian bytes of `x` to `out`.
pub fn push_u64_le(out: &mut Vec<u8>, x: u64)
    ensures
        final(out)@ == old(out)@ + le_bytes(x as nat, 8),
{
    let mut rest: u64 = x;
    let mut i: usize = 0;
    while i < 8
        invariant
            i <= 8,
            old(out)@ + le_bytes(x as nat, 8) == out@ + le_bytes(rest as nat, (8 - i) as nat),
        decreases 8 - i,
    {
        let ghost before = out@;
        out.push((rest % 256) as u8);
        assert(before + le_bytes(rest as nat, (8 - i) as nat) =~= out@ + le_bytes(
            (rest / 256) as nat,
            (8 - i - 1) as nat,
        ));
        rest = rest / 256;
        i += 1;
    }
    assert(out@ + le_bytes(rest as nat, 0) =~= out@);
}

/// Appends the eight little-endian bytes of the two's complement of `t` to
/// `out`.
pub fn push_i64_le(out: &mut Vec<u8>, t: i64)
    ensures
        final(out)@ == old(out)@ + le_bytes(twos_complement(t), 8),
{
    let bits: u64 = if t >= 0 {
        t as u64
    } else {
        ((t + i64::MAX) + 1) as u64 + 0x8000_0000_0000_0000u64
    };
    push_u64_le(out, bits);
}

/// Appends the bytes of `bytes` to `out`.
pub fn push_bytes<const N: usize>(out: &mut Vec<u8>, bytes: &[u8; N])
    ensures
        final(out)@ == old(out)@ + bytes@,
{
    let mut i: usize = 0;
    while i < N
        invariant
            i <= N,
            out@ == old(out)@ + bytes@.take(i as int),
        decreases N - i,
    {
        out.push(bytes[i]);
        assert(out@ =~= old(out)@ + bytes@.take(i + 1));
        i += 1;
    }
    assert(bytes@.take(N as int) =~= bytes@);
}

impl BridgeMessage {
    /// The canonical encoding of the message.
    pub open spec fn encoding(self) -> Seq<u8> {
        le_bytes(self.source_chain_id as nat, 8) + le_bytes(self.destination_chain_id as nat, 8)
            + self.order_id@ + le_bytes(self.amount as nat, 8) + self.sender@ + self.recipient@
            + le_bytes(self.nonce as nat, 8) + le_bytes(twos_complement(self.timestamp), 8)
    }

    /// The digest that validators sign: the Keccak-256 digest of the
    /// canonical encoding.
    pub open spec fn digest(self) -> Seq<u8> {
        keccak256(self.encoding())
    }

    /// Writes the message in its canonical encoding.
    pub fn encode(&self) -> (bytes: Vec<u8>)
        ensures
            bytes@ == self.encoding(),
            bytes@.len() == ENCODED_LEN,
    {
        let mut bytes: Vec<u8> = Vec::with_capacity(ENCODED_LEN);
        push_u64_le(&mut bytes, self.source_chain_id);
        push_u64_le(&mut bytes, self.destination_chain_id);
        push_bytes(&mut bytes, &self.order_id);
        push_u64_le(&mut bytes, self.amount);
        push_bytes(&mut bytes, &self.sender);
        push_bytes(&mut bytes, &self.recipient);
        push_u64_le(&mut bytes, self.nonce);
        push_i64_le(&mut bytes, self.timestamp);
        proof {
            lemma_le_bytes_len(self.source_chain_id as nat, 8);
            lemma_le_bytes_len(self.destination_chain_id as nat, 8);
            lemma_le_bytes_len(self.amount as nat, 8);
            lemma_le_bytes_len(self.nonce as nat, 8);
            lemma_le_bytes_len(twos_complement(self.timestamp), 8);
        }
        bytes
    }

    /// Hashes the canonical encoding of the message.
    pub fn hash(&self) -> (digest: [u8; 32])
        ensures
            digest@ == self.digest(),
    {
        let bytes = self.encode();
        keccak_hash(bytes.as_slice())
    }
}

/// Two strings that agree as wholes and in the length of their first parts
/// agree part by part.
pub proof fn lemma_concat_splits(a: Seq<u8>, b: Seq<u8>, c: Seq<u8>, d: Seq<u8>)
    requires
        a + b == c + d,
        a.len() == c.len(),
    ensures
        a == c,
        b == d,
{
    assert(a =~= (a + b).subrange(0, a.len() as int));
    assert(c =~= (c + d).subrange(0, c.len() as int));
    assert(b =~= (a + b).subrange(a.len() as int, (a + b).len() as int));
    assert(d =~= (c + d).subrange(c.len() as int, (c + d).len() as int));
}

/// 256 to the power of `n`.
pub open spec fn pow256(n: nat) -> nat
    decreases n,
{
    if n == 0 {
        1
    } else {
        256 * pow256((n - 1) as nat)
    }
}

/// Numbers below 256 to the power of `n` with the same `n` digits are equal.
pub proof fn lemma_le_digits_determine(x: nat, y: nat, n: nat)
    requires
        le_bytes(x, n) == le_bytes(y, n),
        x < pow256(n),
        y < pow256(n),
    ensures
        x == y,
    decreases n,
{
    if n > 0 {
        let m = (n - 1) as nat;
        let head_x = seq![(x % 256) as u8];
        let head_y = seq![(y % 256) as u8];
        lemma_concat_splits(head_x, le_bytes(x / 256, m), head_y, le_bytes(y / 256, m));
        assert(head_x[0] == head_y[0]);
        lemma_le_digits_determine(x / 256, y / 256, m);
    }
}

/// The eight digits of a 64-bit number determine it.
pub proof fn lemma_le_bytes_determine_u64(x: u64, y: u64)
    requires
        le_bytes(x as nat, 8) == le_bytes(y as nat, 8),
    ensures
        x == y,
{
    assert(pow256(8) == 0x1_0000_0000_0000_0000) by {
        reveal_with_fuel(pow256, 9);
    }
    lemma_le_digits_determine(x as nat, y as nat, 8);
}

/// The encoding is unambiguous: two messages with the same encoding are the
/// same message.
pub proof fn lemma_encoding_determines_message(one: BridgeMessage, other: BridgeMessage)
    requires
        one.encoding() == other.encoding(),
    ensures
        one == other,
{
    let one_source = le_bytes(one.source_chain_id as nat, 8);
    let other_source = le_bytes(other.source_chain_id as nat, 8);
    let one_destination = le_bytes(one.destination_chain_id as nat, 8);
    let other_destination = le_bytes(other.destination_chain_id as nat, 8);
    let one_amount = le_bytes(one.amount as nat, 8);
    let other_amount = le_bytes(other.amount as nat, 8);
    let one_nonce = le_bytes(one.nonce as nat, 8);
    let other_nonce = le_bytes(other.nonce as nat, 8);
    let one_time = le_bytes(twos_complement(one.timestamp), 8);
    let other_time = le_bytes(twos_complement(other.timestamp), 8);
    lemma_le_bytes_len(one.source_chain_id as nat, 8);
    lemma_le_bytes_len(other.source_chain_id as nat, 8);
    lemma_le_bytes_len(one.destination_chain_id as nat, 8);
    lemma_le_bytes_len(other.destination_chain_id as nat, 8);
    lemma_le_bytes_len(one.amount as nat, 8);
    lemma_le_bytes_len(other.amount as nat, 8);
    lemma_le_bytes_len(one.nonce as nat, 8);
    lemma_le_bytes_len(other.nonce as nat, 8);
    lemma_le_bytes_len(twos_complement(one.timestamp), 8);
    lemma_le_bytes_len(twos_complement(other.timestamp), 8);
    let one_to_destination = one_source + one_destination;
    let other_to_destination = other_source + other_destination;
    let one_to_order = one_to_destination + one.order_id@;
    let other_to_order = other_to_destination + other.order_id@;
    let one_to_amount = one_to_order + one_amount;
    let other_to_amount = other_to_order + other_amount;
    let one_to_sender = one_to_amount + one.sender@;
    let other_to_sender = other_to_amount + other.sender@;
    let one_to_recipient = one_to_sender + one.recipient@;
    let other_to_recipient = other_to_sender + other.recipient@;
    let one_to_nonce = one_to_recipient + one_nonce;
    let other_to_nonce = other_to_recipient + other_nonce;
    lemma_concat_splits(one_to_nonce, one_time, other_to_nonce, other_time);
    lemma_concat_splits(one_to_recipient, one_nonce, other_to_recipient, other_nonce);
    lemma_concat_splits(one_to_sender, one.recipient@, other_to_sender, other.recipient@);
    lemma_concat_splits(one_to_amount, one.sender@, other_to_amount, other.sender@);
    lemma_concat_splits(one_to_order, one_amount, other_to_order, other_amount);
    lemma_concat_splits(one_to_destination, one.order_id@, other_to_destination, other.order_id@);
    lemma_concat_splits(one_source, one_destination, other_source, other_destination);
    lemma_le_bytes_determine_u64(one.source_chain_id, other.source_chain_id);
    lemma_le_bytes_determine_u64(one.destination_chain_id, other.destination_chain_id);
    lemma_le_bytes_determine_u64(one.amount, other.amount);
    lemma_le_bytes_determine_u64(one.nonce, other.nonce);
    lemma_le_bytes_determine_u64(
        twos_complement(one.timestamp) as u64,
        twos_complement(other.timestamp) as u64,
    );
    assert(one.order_id =~= other.order_id);
    assert(one.sender =~= other.sender);
    assert(one.recipient =~= other.recipient);
}

} // verus!
