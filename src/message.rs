//! Reading the message: 16-byte chunks, zero-padded at the end, and the
//! little-endian encoding of the message length.
use vstd::prelude::*;
use crate::aes::Block;

verus! {

/// The 16 bytes of `m` that start at `pos`; positions past the end of `m`
/// read as zero.
pub open spec fn chunk_at(m: Seq<u8>, pos: int) -> Seq<u8> {
    Seq::new(16, |j: int| if pos + j < m.len() { m[pos + j] } else { 0u8 })
}

/// The 8-byte little-endian encoding of `n`.
pub open spec fn le_bytes(n: u64) -> Seq<u8> {
    Seq::new(8, |j: int| ((n >> ((8 * j) as u64)) & 0xffu64) as u8)
}

/// The length block: `len` as 8 little-endian bytes, then 8 zero bytes.
pub open spec fn length_block(len: nat) -> Seq<u8> {
    chunk_at(le_bytes(len as u64), 0)
}

/// Loads the chunk of `data` that starts at `pos`, zero-padding whatever lies
/// past the end of `data`.
pub fn load_chunk(data: &[u8], pos: usize) -> (r: Block)
    requires
        pos <= data@.len(),
    ensures
        r@ == chunk_at(data@, pos as int),
{
    let mut buffer: Block = [0u8; 16];
    let avail: usize = data.len() - pos;
    let copy_len: usize = if avail < 16 {
        avail
    } else {
        16
    };
    let mut j: usize = 0;
    while j < copy_len
        invariant
            copy_len <= 16,
            pos + copy_len <= data.len(),
            copy_len == 16 || pos + copy_len == data@.len(),
            j <= copy_len,
            forall|k: int| 0 <= k < j ==> buffer@[k] == #[trigger] chunk_at(data@, pos as int)[k],
            forall|k: int| j <= k < 16 ==> buffer@[k] == 0u8,
        decreases copy_len - j,
    {
        buffer[j] = data[pos + j];
        j = j + 1;
    }
    assert(buffer@ =~= chunk_at(data@, pos as int));
    buffer
}

/// Encodes `n` as 8 little-endian bytes.
pub fn u64_le_bytes(n: u64) -> (r: [u8; 8])
    ensures
        r@ == le_bytes(n),
{
    let mut out: [u8; 8] = [0u8; 8];
    let mut j: u64 = 0;
    while j < 8
        invariant
            j <= 8,
            forall|k: int| 0 <= k < j ==> out@[k] == #[trigger] le_bytes(n)[k],
        decreases 8 - j,
    {
        out[j as usize] = ((n >> (8 * j)) & 0xff) as u8;
        j = j + 1;
    }
    assert(out@ =~= le_bytes(n));
    out
}

} // verus!
