//! One round of the AES block cipher, as used by the hash.
//!
//! A block is 16 bytes in the usual AES order: byte `4 * c + r` is row `r`
//! of column `c`.
use vstd::prelude::*;

verus! {

/// A 128-bit value, as 16 bytes.
pub type Block = [u8; 16];

/// The AES substitution box, tabulated: the multiplicative inverse in
/// GF(2^8) (zero for zero), followed by the AES affine map.
pub const SBOX: [u8; 256] = [
    0x63, 0x7c, 0x77, 0x7b, 0xf2, 0x6b, 0x6f, 0xc5, 0x30, 0x01, 0x67, 0x2b, 0xfe, 0xd7, 0xab, 0x76,
    0xca, 0x82, 0xc9, 0x7d, 0xfa, 0x59, 0x47, 0xf0, 0xad, 0xd4, 0xa2, 0xaf, 0x9c, 0xa4, 0x72, 0xc0,
    0xb7, 0xfd, 0x93, 0x26, 0x36, 0x3f, 0xf7, 0xcc, 0x34, 0xa5, 0xe5, 0xf1, 0x71, 0xd8, 0x31, 0x15,
    0x04, 0xc7, 0x23, 0xc3, 0x18, 0x96, 0x05, 0x9a, 0x07, 0x12, 0x80, 0xe2, 0xeb, 0x27, 0xb2, 0x75,
    0x09, 0x83, 0x2c, 0x1a, 0x1b, 0x6e, 0x5a, 0xa0, 0x52, 0x3b, 0xd6, 0xb3, 0x29, 0xe3, 0x2f, 0x84,
    0x53, 0xd1, 0x00, 0xed, 0x20, 0xfc, 0xb1, 0x5b, 0x6a, 0xcb, 0xbe, 0x39, 0x4a, 0x4c, 0x58, 0xcf,
    0xd0, 0xef, 0xaa, 0xfb, 0x43, 0x4d, 0x33, 0x85, 0x45, 0xf9, 0x02, 0x7f, 0x50, 0x3c, 0x9f, 0xa8,
    0x51, 0xa3, 0x40, 0x8f, 0x92, 0x9d, 0x38, 0xf5, 0xbc, 0xb6, 0xda, 0x21, 0x10, 0xff, 0xf3, 0xd2,
    0xcd, 0x0c, 0x13, 0xec, 0x5f, 0x97, 0x44, 0x17, 0xc4, 0xa7, 0x7e, 0x3d, 0x64, 0x5d, 0x19, 0x73,
    0x60, 0x81, 0x4f, 0xdc, 0x22, 0x2a, 0x90, 0x88, 0x46, 0xee, 0xb8, 0x14, 0xde, 0x5e, 0x0b, 0xdb,
    0xe0, 0x32, 0x3a, 0x0a, 0x49, 0x06, 0x24, 0x5c, 0xc2, 0xd3, 0xac, 0x62, 0x91, 0x95, 0xe4, 0x79,
    0xe7, 0xc8, 0x37, 0x6d, 0x8d, 0xd5, 0x4e, 0xa9, 0x6c, 0x56, 0xf4, 0xea, 0x65, 0x7a, 0xae, 0x08,
    0xba, 0x78, 0x25, 0x2e, 0x1c, 0xa6, 0xb4, 0xc6, 0xe8, 0xdd, 0x74, 0x1f, 0x4b, 0xbd, 0x8b, 0x8a,
    0x70, 0x3e, 0xb5, 0x66, 0x48, 0x03, 0xf6, 0x0e, 0x61, 0x35, 0x57, 0xb9, 0x86, 0xc1, 0x1d, 0x9e,
    0xe1, 0xf8, 0x98, 0x11, 0x69, 0xd9, 0x8e, 0x94, 0x9b, 0x1e, 0x87, 0xe9, 0xce, 0x55, 0x28, 0xdf,
    0x8c, 0xa1, 0x89, 0x0d, 0xbf, 0xe6, 0x42, 0x68, 0x41, 0x99, 0x2d, 0x0f, 0xb0, 0x54, 0xbb, 0x16,
];

/// The S-box image of a byte.
#[verifier::opaque]
pub open spec fn sbox(x: u8) -> u8 {
    SBOX@[x as int]
}

/// Bytewise XOR of two blocks.
pub open spec fn xor_block(a: Seq<u8>, b: Seq<u8>) -> Seq<u8> {
    Seq::new(16, |i: int| a[i] ^ b[i])
}

/// The all-zero block.
pub open spec fn zero_block() -> Seq<u8> {
    Seq::new(16, |i: int| 0u8)
}

/// Multiplication by x in GF(2^8) modulo x^8 + x^4 + x^3 + x + 1.
pub open spec fn gf_double(a: u8) -> u8 {
    if a & 0x80u8 != 0 {
        ((a << 1u8) ^ 0x1bu8) as u8
    } else {
        (a << 1u8) as u8
    }
}

/// Multiplication by x + 1 in GF(2^8).
pub open spec fn gf_triple(a: u8) -> u8 {
    gf_double(a) ^ a
}

/// SubBytes: every byte goes through the S-box.
pub open spec fn sub_bytes(s: Seq<u8>) -> Seq<u8> {
    Seq::new(16, |i: int| sbox(s[i]))
}

/// ShiftRows: row `r` is rotated left by `r` columns.
pub open spec fn shift_rows(s: Seq<u8>) -> Seq<u8> {
    Seq::new(16, |i: int| s[4 * ((i / 4 + i % 4) % 4) + i % 4])
}

/// MixColumns: each column is multiplied by the circulant matrix
/// (2 3 1 1) over GF(2^8).
pub open spec fn mix_columns(s: Seq<u8>) -> Seq<u8> {
    Seq::new(
        16,
        |i: int|
            {
                let c = i / 4;
                let r = i % 4;
                gf_double(s[4 * c + r]) ^ gf_triple(s[4 * c + (r + 1) % 4]) ^ s[4 * c + (r + 2)
                    % 4] ^ s[4 * c + (r + 3) % 4]
            },
    )
}

/// One AES encryption round (SubBytes, ShiftRows, MixColumns, AddRoundKey),
/// as computed by the x86 `aesenc` instruction.
#[verifier::opaque]
pub open spec fn aes_round(s: Seq<u8>, key: Seq<u8>) -> Seq<u8> {
    xor_block(mix_columns(shift_rows(sub_bytes(s))), key)
}

/// The S-box image of the input byte that ShiftRows moves to row `r` of
/// column `c`.
spec fn shifted_sbox(s: Seq<u8>, c: int, r: int) -> u8 {
    sbox(s[4 * ((c + r) % 4) + r])
}

/// The four output bytes of column `c`, read off the input bytes.
proof fn lemma_round_column(s: Seq<u8>, key: Seq<u8>, c: int)
    requires
        s.len() == 16,
        0 <= c < 4,
    ensures
        ({
            let a0 = shifted_sbox(s, c, 0);
            let a1 = shifted_sbox(s, c, 1);
            let a2 = shifted_sbox(s, c, 2);
            let a3 = shifted_sbox(s, c, 3);
            &&& aes_round(s, key)[4 * c] == gf_double(a0) ^ gf_triple(a1) ^ a2 ^ a3 ^ key[4 * c]
            &&& aes_round(s, key)[4 * c + 1] == gf_double(a1) ^ gf_triple(a2) ^ a3 ^ a0 ^ key[4 * c
                + 1]
            &&& aes_round(s, key)[4 * c + 2] == gf_double(a2) ^ gf_triple(a3) ^ a0 ^ a1 ^ key[4 * c
                + 2]
            &&& aes_round(s, key)[4 * c + 3] == gf_double(a3) ^ gf_triple(a0) ^ a1 ^ a2 ^ key[4 * c
                + 3]
        }),
{
    reveal(aes_round);
    let sr = shift_rows(sub_bytes(s));
    assert forall|j: int| 0 <= j < 4 implies #[trigger] sr[4 * c + j] == shifted_sbox(s, c, j) by {
        let k = 4 * c + j;
        assert(k / 4 == c && k % 4 == j);
    }
}

fn sub_byte(x: u8) -> (r: u8)
    ensures
        r == sbox(x),
{
    reveal(sbox);
    SBOX[x as usize]
}

fn gf_mul2(a: u8) -> (r: u8)
    ensures
        r == gf_double(a),
{
    let shifted: u8 = a << 1u8;
    if a & 0x80 != 0 {
        shifted ^ 0x1b
    } else {
        shifted
    }
}

/// Computes the four output bytes of column `c` of one AES round.
fn round_column(state: &Block, key: &Block, c: usize) -> (r: (u8, u8, u8, u8))
    requires
        c < 4,
    ensures
        r.0 == aes_round(state@, key@)[4 * c as int],
        r.1 == aes_round(state@, key@)[4 * c + 1],
        r.2 == aes_round(state@, key@)[4 * c + 2],
        r.3 == aes_round(state@, key@)[4 * c + 3],
{
    proof {
        lemma_round_column(state@, key@, c as int);
    }
    let a0 = sub_byte(state[4 * c]);
    let a1 = sub_byte(state[4 * ((c + 1) % 4) + 1]);
    let a2 = sub_byte(state[4 * ((c + 2) % 4) + 2]);
    let a3 = sub_byte(state[4 * ((c + 3) % 4) + 3]);
    let d0 = gf_mul2(a0);
    let d1 = gf_mul2(a1);
    let d2 = gf_mul2(a2);
    let d3 = gf_mul2(a3);
    (
        d0 ^ (d1 ^ a1) ^ a2 ^ a3 ^ key[4 * c],
        d1 ^ (d2 ^ a2) ^ a3 ^ a0 ^ key[4 * c + 1],
        d2 ^ (d3 ^ a3) ^ a0 ^ a1 ^ key[4 * c + 2],
        d3 ^ (d0 ^ a0) ^ a1 ^ a2 ^ key[4 * c + 3],
    )
}

/// Computes one AES encryption round of `state` with round key `key`.
pub fn aesenc(state: &Block, key: &Block) -> (r: Block)
    ensures
        r@ == aes_round(state@, key@),
{
    let mut out: Block = [0u8; 16];
    let mut c: usize = 0;
    while c < 4
        invariant
            c <= 4,
            forall|j: int| 0 <= j < 4 * c ==> out@[j] == #[trigger] aes_round(state@, key@)[j],
        decreases 4 - c,
    {
        let (b0, b1, b2, b3) = round_column(state, key, c);
        out[4 * c] = b0;
        out[4 * c + 1] = b1;
        out[4 * c + 2] = b2;
        out[4 * c + 3] = b3;
        c = c + 1;
    }
    assert(out@ =~= aes_round(state@, key@)) by {
        reveal(aes_round);
    }
    out
}

/// Computes the bytewise XOR of two blocks.
pub fn xor_lanes(a: &Block, b: &Block) -> (r: Block)
    ensures
        r@ == xor_block(a@, b@),
{
    let mut out: Block = [0u8; 16];
    let mut i: usize = 0;
    while i < 16
        invariant
            i <= 16,
            forall|j: int| 0 <= j < i ==> out@[j] == #[trigger] xor_block(a@, b@)[j],
        decreases 16 - i,
    {
        out[i] = a[i] ^ b[i];
        i = i + 1;
    }
    assert(out@ =~= xor_block(a@, b@));
    out
}

} // verus!
