use vstd::prelude::*;

verus! {

/// Why an operation failed. Every fallible operation reports exactly one of
/// these; none of them ever comes with partial output.
#[derive(Clone, Copy, Debug, PartialEq, Eq, Structural)]
pub enum CryptoError {
    /// The key is not exactly 32 bytes.
    InvalidKeyLength,
    /// A sealed or framed buffer is shorter than its required header.
    InvalidInputLength,
    /// AEAD tag verification failed: the blob was tampered with or the key is
    /// wrong.
    AuthenticationFailure,
    /// A boundary-level conversion failed (for example malformed text).
    MarshallingFailure,
    /// The length declared inside an obfuscated frame exceeds the bytes that
    /// are actually present.
    TruncatedFrame,
}

} // verus!
