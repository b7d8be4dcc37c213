use crypto_gateway::{deobfuscate, obfuscate, CryptoError};

fn keystream_byte(i: usize) -> u8 {
    0x5Au8 ^ ((i % 256) as u8)
}

fn mask(bytes: &mut [u8]) {
    for i in 0..bytes.len() {
        bytes[i] ^= keystream_byte(i);
    }
}

#[test]
fn obfuscate_round_trip() {
    let payloads: Vec<Vec<u8>> = vec![
        Vec::new(),
        vec![0u8],
        b"hello world".to_vec(),
        (0..300).map(|i| (i % 256) as u8).collect(),
    ];
    for data in payloads {
        let frame = obfuscate(&data);
        assert_eq!(deobfuscate(&frame), Ok(data));
    }
}

#[test]
fn frame_overhead_is_prefix_plus_padding() {
    let data = vec![0xABu8; 50];
    let mut seen_lengths: Vec<usize> = Vec::new();
    for _ in 0..200 {
        let frame = obfuscate(&data);
        let overhead = frame.len() - data.len();
        assert!((4 + 16..=4 + 79).contains(&overhead));
        seen_lengths.push(frame.len());
    }
    let first = seen_lengths[0];
    assert!(
        seen_lengths.iter().any(|&l| l != first),
        "padding length never varied over 200 frames"
    );
}

#[test]
fn deobfuscate_reads_declared_length_exactly() {
    let mut frame: Vec<u8> = vec![0, 0, 0, 3];
    frame.extend_from_slice(b"abc");
    frame.extend_from_slice(&[0u8; 16]);
    mask(&mut frame);
    assert_eq!(deobfuscate(&frame), Ok(b"abc".to_vec()));
}

#[test]
fn truncated_frame_is_rejected() {
    let mut frame: Vec<u8> = vec![0, 0, 0, 10];
    frame.extend_from_slice(b"abc");
    mask(&mut frame);
    assert_eq!(deobfuscate(&frame), Err(CryptoError::TruncatedFrame));

    let mut huge: Vec<u8> = vec![0xFF, 0xFF, 0xFF, 0xFF];
    huge.extend_from_slice(&[0u8; 64]);
    mask(&mut huge);
    assert_eq!(deobfuscate(&huge), Err(CryptoError::TruncatedFrame));
}

#[test]
fn frame_without_header_is_rejected() {
    for len in 0..4usize {
        let mut frame = vec![0x5Au8; len];
        mask(&mut frame);
        assert_eq!(deobfuscate(&frame), Err(CryptoError::InvalidInputLength));
    }
}

#[test]
fn obfuscated_payload_is_masked() {
    let data = vec![0x11u8; 16];
    let frame = obfuscate(&data);
    assert_ne!(&frame[4..4 + data.len()], data.as_slice());
    for i in 0..data.len() {
        assert_eq!(frame[4 + i] ^ keystream_byte(4 + i), data[i]);
    }
}
