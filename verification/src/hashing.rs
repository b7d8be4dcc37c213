use vstd::prelude::*;
use vstd::string::StringSliceAdditionalSpecFns;

use crate::bytes::append_bytes;

verus! {

/// How many chaining rounds follow the initial digest.
pub const HASH_ROUNDS: u32 = 10000;

/// The SHA-256 digest of a byte sequence. Its values are pinned only through
/// the trusted digest wrapper; verified code reasons about it by name.
pub uninterp spec fn sha256_of(data: Seq<u8>) -> Seq<u8>;

/// Relies on sha2::Sha256 (sha2::Digest::digest): the digest is 32 bytes and
/// a function of the input bytes alone.
#[verifier::external_body]
fn sha256(data: &[u8]) -> (r: Vec<u8>)
    ensures
        r@ == sha256_of(data@),
        r@.len() == 32,
{
    <sha2::Sha256 as sha2::Digest>::digest(data).to_vec()
}

/// The digest chain: round 0 hashes the seed followed by the salt, and every
/// later round hashes the previous digest followed by the salt.
pub open spec fn chained_digest(seed: Seq<u8>, salt: Seq<u8>, round: nat) -> Seq<u8>
    decreases round,
{
    if round == 0 {
        sha256_of(seed + salt)
    } else {
        sha256_of(chained_digest(seed, salt, (round - 1) as nat) + salt)
    }
}

/// Hashes a password with a salt: the UTF-8 bytes of the password followed by
/// the salt are digested once, and the digest is then rehashed with the salt
/// appended for another 10,000 rounds. The 32-byte result is a function of
/// the password and the salt alone.
pub fn hash_password(password: &str, salt: &Vec<u8>) -> (r: Vec<u8>)
    ensures
        r@ == chained_digest(password.spec_bytes(), salt@, HASH_ROUNDS as nat),
        r@.len() == 32,
{
    let mut seed: Vec<u8> = Vec::new();
    append_bytes(&mut seed, password.as_bytes());
    append_bytes(&mut seed, salt.as_slice());
    let mut digest: Vec<u8> = sha256(seed.as_slice());
    let mut round: u32 = 0;
    while round < HASH_ROUNDS
        invariant
            round <= HASH_ROUNDS,
            digest@ == chained_digest(password.spec_bytes(), salt@, round as nat),
            digest@.len() == 32,
        decreases HASH_ROUNDS - round,
    {
        let mut block: Vec<u8> = Vec::new();
        append_bytes(&mut block, digest.as_slice());
        append_bytes(&mut block, salt.as_slice());
        digest = sha256(block.as_slice());
        round = round + 1;
    }
    digest
}

/// Hashing is deterministic: the digest chain is a function of the password
/// bytes and the salt alone, so equal inputs always yield equal digests.
pub proof fn lemma_hash_deterministic(
    pw1: Seq<u8>,
    salt1: Seq<u8>,
    pw2: Seq<u8>,
    salt2: Seq<u8>,
)
    requires
        pw1 == pw2,
        salt1 == salt2,
    ensures
        chained_digest(pw1, salt1, HASH_ROUNDS as nat)
            == chained_digest(pw2, salt2, HASH_ROUNDS as nat),
{
}

} // verus!
