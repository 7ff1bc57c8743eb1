//! The commitment to a move: the SHA-256 digest of the move's byte followed
//! by the bytes of a salt.

use vstd::prelude::*;
use sha2::Digest;
use crate::bytes::lemma_equal_bytewise;

verus! {

/// The SHA-256 digest of `data`, as the `sha2` crate computes it.
pub uninterp spec fn sha256(data: Seq<u8>) -> Seq<u8>;

/// Calls `sha2::Sha256::digest`, the one-shot form of the crate's hasher.
/// Trusted, not proved: the thirty-two bytes that come back are the SHA-256
/// digest of `data`, a function of those bytes alone.
#[verifier::external_body]
fn sha256_of(data: &[u8]) -> (digest: [u8; 32])
    ensures
        digest@ == sha256(data@),
{
    sha2::Sha256::digest(data).into()
}

/// The bytes that are hashed to commit to a move: the move, then the salt.
pub open spec fn preimage(original_move: u8, salt: Seq<u8>) -> Seq<u8> {
    seq![original_move] + salt
}

/// The commitment to `original_move` under `salt`: the thirty-two bytes
/// that are the SHA-256 digest of the move followed by the salt.
pub open spec fn committed(original_move: u8, salt: Seq<u8>) -> [u8; 32] {
    choose|digest: [u8; 32]| digest@ == sha256(preimage(original_move, salt))
}

/// Thirty-two bytes with the digest's content are the commitment: there is
/// no other value with the same bytes.
pub proof fn lemma_committed(digest: [u8; 32], original_move: u8, salt: Seq<u8>)
    requires
        digest@ == sha256(preimage(original_move, salt)),
    ensures
        digest == committed(original_move, salt),
{
    let chosen = committed(original_move, salt);
    assert(chosen@ == digest@);
    assert forall|i: int| 0 <= i < 32 implies chosen[i] == digest[i] by {
        assert(chosen@[i] == digest@[i]);
    }
    lemma_equal_bytewise(chosen, digest);
}

/// Computes the commitment to `original_move` under `salt`.
pub fn commitment(original_move: u8, salt: &[u8]) -> (digest: [u8; 32])
    ensures
        digest@ == sha256(preimage(original_move, salt@)),
        digest == committed(original_move, salt@),
{
    let mut data: Vec<u8> = Vec::new();
    data.push(original_move);
    data.extend_from_slice(salt);
    assert(data@ =~= preimage(original_move, salt@));
    let digest = sha256_of(data.as_slice());
    proof {
        lemma_committed(digest, original_move, salt@);
    }
    digest
}

} // verus!
