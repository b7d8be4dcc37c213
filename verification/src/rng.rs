use vstd::prelude::*;

verus! {

/// Relies on rand::rngs::ThreadRng::fill_bytes (rand::RngCore), a
/// cryptographically secure generator: it fills the whole buffer, so the
/// result has exactly the requested length. Nothing is promised of the
/// values, which are random.
#[verifier::external_body]
pub(crate) fn random_bytes(n: usize) -> (r: Vec<u8>)
    ensures
        r@.len() == n,
{
    let mut buf = vec![0u8; n];
    rand::RngCore::fill_bytes(&mut rand::thread_rng(), &mut buf);
    buf
}

/// Relies on rand::rngs::ThreadRng::next_u32 (rand::RngCore): one draw from a
/// cryptographically secure generator. Nothing is promised of the value,
/// which is random.
#[verifier::external_body]
pub(crate) fn random_u32() -> u32 {
    rand::RngCore::next_u32(&mut rand::thread_rng())
}

} // verus!
