//! Commitment codec: builds and verifies the cryptographic commitments that
//! bind a hidden choice to a salt, a party identity and a caller-supplied
//! nonce. Binding the party and the nonce is mandatory: a commitment over the
//! choice and salt alone could be replayed by an eavesdropper as their own.

use vstd::prelude::*;
use sha2::Digest;

verus! {

/// The SHA-256 digest of a byte sequence. The digest is a pure function of
/// the input bytes alone; its value is left abstract.
pub uninterp spec fn sha256_of(data: Seq<u8>) -> Seq<u8>;

/// Relies on sha2::Sha256 (through `Digest::digest`): returns the 32-byte
/// SHA-256 digest of the input, which depends on the input bytes alone.
#[verifier::external_body]
pub(crate) fn sha256(data: &Vec<u8>) -> (r: [u8; 32])
    ensures
        r@ == sha256_of(data@),
{
    sha2::Sha256::digest(data.as_slice()).into()
}

/// The bytes that a commitment is computed over: the choice discriminant,
/// the 32-byte salt, then the party identifier and the nonce, each as
/// 8 little-endian bytes.
pub open spec fn commitment_preimage(choice: u8, salt: Seq<u8>, party: u64, nonce: u64) -> Seq<u8> {
    seq![choice] + salt + vstd::bytes::spec_u64_to_le_bytes(party)
        + vstd::bytes::spec_u64_to_le_bytes(nonce)
}

/// The commitment bound to (choice, salt, party, nonce).
pub open spec fn spec_commit(choice: u8, salt: Seq<u8>, party: u64, nonce: u64) -> Seq<u8> {
    sha256_of(commitment_preimage(choice, salt, party, nonce))
}

/// Whether `commitment` is the commitment for (choice, salt, party, nonce).
pub open spec fn spec_verify(
    commitment: Seq<u8>,
    choice: u8,
    salt: Seq<u8>,
    party: u64,
    nonce: u64,
) -> bool {
    commitment == spec_commit(choice, salt, party, nonce)
}

/// Commitment round trip: verifying a freshly built commitment against the
/// same choice, salt, party and nonce always succeeds.
pub proof fn lemma_commit_round_trip(choice: u8, salt: Seq<u8>, party: u64, nonce: u64)
    ensures
        spec_verify(spec_commit(choice, salt, party, nonce), choice, salt, party, nonce),
{
}

fn preimage_bytes(choice: u8, salt: &[u8; 32], party: u64, nonce: u64) -> (r: Vec<u8>)
    ensures
        r@ == commitment_preimage(choice, salt@, party, nonce),
{
    let mut buf: Vec<u8> = Vec::new();
    buf.push(choice);
    let mut i: usize = 0;
    while i < 32
        invariant
            i <= 32,
            buf@ == seq![choice] + salt@.subrange(0, i as int),
        decreases 32 - i,
    {
        buf.push(salt[i]);
        proof {
            assert(seq![choice] + salt@.subrange(0, i as int) + seq![salt@[i as int]]
                =~= seq![choice] + salt@.subrange(0, i + 1));
        }
        i = i + 1;
    }
    let mut party_bytes = vstd::bytes::u64_to_le_bytes(party);
    buf.append(&mut party_bytes);
    let mut nonce_bytes = vstd::bytes::u64_to_le_bytes(nonce);
    buf.append(&mut nonce_bytes);
    proof {
        assert(salt@.subrange(0, 32) =~= salt@);
        assert(buf@ =~= commitment_preimage(choice, salt@, party, nonce));
    }
    buf
}

/// Builds the commitment for (choice, salt, party, nonce): a deterministic
/// one-way binding of the hidden choice to the committing party.
pub fn commit(choice: u8, salt: &[u8; 32], party: u64, nonce: u64) -> (r: [u8; 32])
    ensures
        r@ == spec_commit(choice, salt@, party, nonce),
{
    let buf = preimage_bytes(choice, salt, party, nonce);
    sha256(&buf)
}

/// Copies 32 bytes out of `bytes` starting at `start`.
pub(crate) fn copy32(bytes: &[u8], start: usize) -> (r: [u8; 32])
    requires
        start + 32 <= bytes@.len(),
    ensures
        r@ == bytes@.subrange(start as int, start + 32),
{
    let mut arr: [u8; 32] = [0; 32];
    let n: usize = bytes.len();
    let mut i: usize = 0;
    while i < 32
        invariant
            i <= 32,
            start + 32 <= n == bytes@.len(),
            arr@.len() == 32,
            forall|j: int| 0 <= j < i ==> arr@[j] == bytes@[start + j],
        decreases 32 - i,
    {
        arr[i] = bytes[start + i];
        i = i + 1;
    }
    proof {
        assert(arr@ =~= bytes@.subrange(start as int, start + 32));
    }
    arr
}

/// Compares two 32-byte values.
pub fn bytes32_eq(a: &[u8; 32], b: &[u8; 32]) -> (r: bool)
    ensures
        r == (a@ == b@),
{
    let mut i: usize = 0;
    while i < 32
        invariant
            i <= 32,
            forall|j: int| 0 <= j < i ==> a@[j] == b@[j],
        decreases 32 - i,
    {
        if a[i] != b[i] {
            return false;
        }
        i = i + 1;
    }
    proof {
        assert(a@ =~= b@);
    }
    true
}

/// True iff `commit(choice, salt, party, nonce)` reproduces `commitment`.
pub fn verify(commitment: &[u8; 32], choice: u8, salt: &[u8; 32], party: u64, nonce: u64) -> (r:
    bool)
    ensures
        r == spec_verify(commitment@, choice, salt@, party, nonce),
{
    let expected = commit(choice, salt, party, nonce);
    bytes32_eq(commitment, &expected)
}

} // verus!
