use crypto_gateway::hash_password;
use sha2::{Digest, Sha256};

#[test]
fn hashing_is_deterministic() {
    let salt = vec![1u8, 2, 3, 4, 5, 6, 7, 8];
    let a = hash_password("p", &salt);
    let b = hash_password("p", &salt);
    assert_eq!(a, b);
    assert_eq!(a.len(), 32);
}

#[test]
fn hashing_depends_on_salt_and_password() {
    let salt = vec![1u8, 2, 3, 4, 5, 6, 7, 8];
    let mut other_salt = salt.clone();
    other_salt[3] ^= 0x01;
    let base = hash_password("p", &salt);
    assert_ne!(base, hash_password("p", &other_salt));
    assert_ne!(base, hash_password("q", &salt));
    assert_ne!(base, hash_password("", &salt));
}

#[test]
fn hashing_matches_incremental_chain() {
    let password = "correct horse battery staple";
    let salt = vec![0xA5u8, 0x00, 0xFF, 0x42];

    let mut hasher = Sha256::new();
    hasher.update(password.as_bytes());
    hasher.update(&salt);
    for _ in 0..10_000 {
        let digest = hasher.finalize_reset();
        hasher.update(digest);
        hasher.update(&salt);
    }
    let expected: Vec<u8> = hasher.finalize().to_vec();

    assert_eq!(hash_password(password, &salt), expected);
}

#[test]
fn hashing_handles_empty_inputs() {
    let empty_salt: Vec<u8> = Vec::new();
    let a = hash_password("", &empty_salt);
    assert_eq!(a.len(), 32);
    let b = hash_password("", &empty_salt);
    assert_eq!(a, b);
}

#[test]
fn digest_is_not_the_input() {
    let salt = vec![9u8; 32];
    let digest = hash_password("password", &salt);
    assert_ne!(digest, salt);
    assert_ne!(digest.as_slice(), b"password");
}
