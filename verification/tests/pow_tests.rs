use hashd::codec::le16;
use hashd::engine::{pow_digest, search, sweep, verify_pow};
use hashd::gate::satisfies;
use hashd::HashdError;

#[test]
fn zero_difficulty_is_vacuous() {
    let all_ones = [0xFFu8; 32];
    let all_zero = [0x00u8; 32];
    let mixed: Vec<u8> = (0u8..32).collect();
    assert!(satisfies(&all_ones, 0));
    assert!(satisfies(&all_zero, 0));
    assert!(satisfies(&mixed, 0));
}

#[test]
fn satisfies_checks_leading_bits() {
    let mut h = [0u8; 32];
    assert!(satisfies(&h, 256));
    h[0] = 0x80;
    assert!(!satisfies(&h, 1));
    h[0] = 0x40;
    assert!(satisfies(&h, 1));
    assert!(!satisfies(&h, 2));
    h[0] = 0x00;
    h[1] = 0x01;
    assert!(satisfies(&h, 15));
    assert!(!satisfies(&h, 16));
}

#[test]
fn le16_is_fixed_width_little_endian() {
    let one = le16(1);
    assert_eq!(one.len(), 16);
    assert_eq!(one[0], 1);
    assert!(one[1..].iter().all(|&b| b == 0));

    let big = le16(256);
    assert_eq!(big.len(), 16);
    assert_eq!(big[0], 0);
    assert_eq!(big[1], 1);

    let max = le16(u128::MAX);
    assert!(max.iter().all(|&b| b == 0xFF));
}

#[test]
fn le16_distinguishes_one_from_two_fifty_six() {
    assert_ne!(le16(1), le16(256));
}

#[test]
fn search_at_zero_difficulty_takes_first_nonce() {
    let sig = [0xABu8; 48];
    let (hash, nonce) = search(&sig, 0, 5).unwrap();
    assert_eq!(nonce, 5);
    assert_eq!(hash.len(), 32);
    assert_eq!(hash, pow_digest(&sig, 5));
}

#[test]
fn search_result_matches_recomputed_digest() {
    let sig = [0x11u8; 64];
    for d in [0usize, 1, 4, 6] {
        let (hash, nonce) = search(&sig, d, 0).unwrap();
        assert!(satisfies(&hash, d));
        assert_eq!(hash, pow_digest(&sig, nonce));
        assert_eq!(verify_pow(&sig, nonce, d), Ok(true));
    }
}

#[test]
fn search_finds_smallest_nonce_at_difficulty_eight() {
    let sig = [0xFFu8; 64];
    let (hash, nonce) = search(&sig, 8, 0).unwrap();
    assert_eq!(hash[0], 0x00);
    assert_eq!(hash, pow_digest(&sig, nonce));
    for m in 0..nonce {
        assert_eq!(verify_pow(&sig, m, 8), Ok(false));
    }
    assert_eq!(verify_pow(&sig, nonce, 8), Ok(true));
}

#[test]
fn difficulty_above_digest_length_is_rejected() {
    let sig = [0x55u8; 16];
    assert_eq!(search(&sig, 257, 0), Err(HashdError::InvalidDifficulty));
    assert_eq!(verify_pow(&sig, 0, 300), Err(HashdError::InvalidDifficulty));
    assert!(sweep(&sig, 257).is_err());
}

#[test]
fn sweep_resumes_from_previous_nonce() {
    let sig = [0xC3u8; 32];
    let entries = sweep(&sig, 6).unwrap();
    assert_eq!(entries.len(), 7);
    assert_eq!(entries[0].nonce, 0);
    let mut prev = 0u128;
    for (i, e) in entries.iter().enumerate() {
        assert_eq!(e.difficulty, i);
        assert!(e.nonce >= prev);
        assert!(satisfies(&e.hash, i));
        assert_eq!(e.hash, pow_digest(&sig, e.nonce));
        assert_eq!(verify_pow(&sig, e.nonce, i), Ok(true));
        prev = e.nonce;
    }
}

#[test]
fn digest_does_not_echo_its_input() {
    // 80 bytes of 0xFF in, 32 digest bytes out: the hash is a real
    // digest of signature ++ le16(nonce), not the input handed back.
    let sig = [0xFFu8; 64];
    let digest = pow_digest(&sig, 0);
    assert_eq!(digest.len(), 32);
    assert!(digest.iter().any(|&b| b != 0xFF));
    // Different nonces give different digests.
    assert_ne!(pow_digest(&sig, 0), pow_digest(&sig, 1));
}
