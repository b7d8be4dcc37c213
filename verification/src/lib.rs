//! Cryptographic primitives gateway: authenticated encryption (AES-256-GCM
//! with a random nonce prefix), iterated-SHA-256 password hashing, secure key
//! generation, and reversible traffic obfuscation with a length-prefixed,
//! padded, keystream-masked frame.

pub mod aead;
pub mod bytes;
pub mod errors;
pub mod hashing;
pub mod keys;
pub mod obfuscation;
mod rng;

pub use aead::{decrypt, encrypt};
pub use errors::CryptoError;
pub use hashing::hash_password;
pub use keys::generate_key;
pub use obfuscation::{deobfuscate, obfuscate};
