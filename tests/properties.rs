use camphash::aes::{aesenc, xor_lanes};
use camphash::message::{load_chunk, u64_le_bytes};
use camphash::{hash, hash_ref};

fn hex(bytes: &[u8]) -> String {
    bytes.iter().map(|b| format!("{:02x}", b)).collect()
}

fn from_hex(s: &str) -> [u8; 16] {
    let mut out = [0u8; 16];
    for i in 0..16 {
        out[i] = u8::from_str_radix(&s[2 * i..2 * i + 2], 16).unwrap();
    }
    out
}

/// A deterministic, non-repeating byte pattern of the given length.
fn pattern(len: usize) -> Vec<u8> {
    let mut x: u32 = 0x1234_5678;
    let mut v = Vec::with_capacity(len);
    for _ in 0..len {
        x = x.wrapping_mul(1_103_515_245).wrapping_add(12_345);
        v.push((x >> 16) as u8);
    }
    v
}

#[test]
fn digest_of_empty_message() {
    assert_eq!(hex(&hash(b"")), "e8970a983d211daa8e4f118531820efe");
}

#[test]
fn digest_of_single_zero_byte() {
    assert_eq!(hex(&hash(&[0x00])), "442ba25cf355109c5a67e43baeee2884");
}

#[test]
fn digest_of_ten_digits() {
    assert_eq!(hex(&hash(b"0123456789")), "b23c6e285240cf759ab4b017ff06f8b1");
}

#[test]
fn digest_of_exactly_one_chunk() {
    assert_eq!(hex(&hash(b"this is 16 bytes")), "f83562ecf27b3ae1ef8f56744085857c");
}

#[test]
fn digest_of_exactly_two_chunks() {
    assert_eq!(
        hex(&hash(b"This string is exactly 32 bytes.")),
        "b0be6dda84589ae0842fbfb12e992691"
    );
}

#[test]
fn repeated_calls_agree() {
    for len in [0usize, 1, 17, 384, 1000] {
        let m = pattern(len);
        assert_eq!(hash(&m), hash(&m));
        assert_eq!(hash_ref(&m), hash_ref(&m));
    }
}

#[test]
fn reference_agrees_at_boundaries() {
    let super_block = 16 * 24;
    let lengths = [
        0,
        1,
        15,
        16,
        17,
        super_block - 1,
        super_block,
        super_block + 1,
        2 * super_block,
        2 * super_block - 1,
        2 * super_block + 15,
        2 * super_block + 16,
        3 * super_block + 200,
    ];
    for len in lengths {
        let m = pattern(len);
        assert_eq!(hash(&m), hash_ref(&m), "length {}", len);
    }
}

#[test]
fn reference_agrees_on_every_length_up_to_three_super_blocks() {
    let m = pattern(3 * 384 + 1);
    for len in 0..m.len() {
        assert_eq!(hash(&m[..len]), hash_ref(&m[..len]), "length {}", len);
    }
}

#[test]
fn content_changes_the_digest() {
    assert_ne!(hash(b"a"), hash(b"b"));
    let m1 = pattern(400);
    let mut m2 = m1.clone();
    m2[390] ^= 1;
    assert_ne!(hash(&m1), hash(&m2));
}

#[test]
fn length_changes_the_digest() {
    // Zero padding alone would make these absorb the same chunk.
    assert_ne!(hash(b""), hash(&[0x00]));
    assert_ne!(hash(&[0x00]), hash(&[0x00, 0x00]));
    let m = pattern(385);
    assert_ne!(hash(&m[..384]), hash(&m));
}

#[test]
fn large_message_is_hashed() {
    let m = pattern(1 << 21);
    let d1 = hash(&m);
    let d2 = hash(&m);
    assert_eq!(d1, d2);
    let m2 = pattern(100_000);
    assert_eq!(hash(&m2), hash_ref(&m2));
}

#[test]
fn aes_round_matches_published_vector() {
    // The first round of the FIPS-197 example (Appendix B), which starts
    // round two with the given state.
    let state = from_hex("193de3bea0f4e22b9ac68d2ae9f84808");
    let key = from_hex("a0fafe1788542cb123a339392a6c7605");
    assert_eq!(hex(&aesenc(&state, &key)), "a49c7ff2689f352b6b5bea43026a5049");
}

#[test]
fn aes_round_matches_instruction_example() {
    // 128-bit values written most significant byte first.
    let mut state = from_hex("7b5b54657374566563746f725d53475d");
    let mut key = from_hex("48692853686179295b477565726f6e5d");
    state.reverse();
    key.reverse();
    let mut out = aesenc(&state, &key);
    out.reverse();
    assert_eq!(hex(&out), "a8311c2f9fdba3c58b104b58ded7e595");
}

#[test]
fn xor_of_blocks() {
    let a = from_hex("00112233445566778899aabbccddeeff");
    let b = from_hex("ffffffffffffffff0000000000000000");
    assert_eq!(hex(&xor_lanes(&a, &b)), "ffeeddccbbaa99888899aabbccddeeff");
}

#[test]
fn chunk_is_zero_padded() {
    let data = [1u8, 2, 3, 4, 5];
    assert_eq!(hex(&load_chunk(&data, 2)), "03040500000000000000000000000000");
    assert_eq!(hex(&load_chunk(&data, 5)), "00000000000000000000000000000000");
    let long = pattern(40);
    assert_eq!(&load_chunk(&long, 16)[..], &long[16..32]);
}

#[test]
fn length_is_little_endian() {
    assert_eq!(u64_le_bytes(0x0102_0304_0506_0708), [8, 7, 6, 5, 4, 3, 2, 1]);
    assert_eq!(u64_le_bytes(385), [0x81, 0x01, 0, 0, 0, 0, 0, 0]);
}
