use vstd::prelude::*;

use crate::rng::random_bytes;

verus! {

/// The length, in bytes, of an AES-256-GCM key.
pub const KEY_LEN: usize = 32;

/// Draws a fresh 32-byte key from the secure random source. The bytes are
/// random: nothing beyond the length can be promised of them.
pub fn generate_key() -> (r: Vec<u8>)
    ensures
        r@.len() == KEY_LEN,
{
    random_bytes(KEY_LEN)
}

} // verus!
