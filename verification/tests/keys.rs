use std::collections::HashSet;

use crypto_gateway::generate_key;

#[test]
fn generated_keys_are_32_bytes() {
    for _ in 0..10 {
        assert_eq!(generate_key().len(), 32);
    }
}

#[test]
fn generated_keys_do_not_repeat() {
    let mut keys: HashSet<Vec<u8>> = HashSet::new();
    for _ in 0..1000 {
        keys.insert(generate_key());
    }
    assert_eq!(keys.len(), 1000);
}

#[test]
fn generated_key_bytes_cover_all_values() {
    let mut seen = [false; 256];
    for _ in 0..1000 {
        for b in generate_key() {
            seen[b as usize] = true;
        }
    }
    assert!(
        seen.iter().all(|&s| s),
        "some byte value never occurred in 32,000 random key bytes"
    );
}
