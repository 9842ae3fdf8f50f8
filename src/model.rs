//! The digest as mathematics: the lane-parallel path (super-blocks, tail,
//! finalization) and the round-robin reference absorption.
use vstd::prelude::*;
use crate::aes::{aes_round, xor_block, zero_block};
use crate::message::{chunk_at, length_block};
use crate::params::{INITIAL_STATE, LaneArray, XOR_VALUE};

verus! {

/// The lanes of a lane array, as byte sequences.
pub open spec fn lanes_view(st: LaneArray) -> Seq<Seq<u8>> {
    Seq::new(24, |i: int| st@[i]@)
}

/// The initial lanes.
pub open spec fn seed_lanes() -> Seq<Seq<u8>> {
    lanes_view(INITIAL_STATE)
}

/// Two rounds keyed with the mixing constant, then one round keyed with `key`.
pub open spec fn mix_rounds(s: Seq<u8>, key: Seq<u8>) -> Seq<u8> {
    aes_round(aes_round(aes_round(s, XOR_VALUE@), XOR_VALUE@), key)
}

/// Absorbs one chunk into a lane: XOR it in, then two mixing rounds and one
/// zero-key round.
pub open spec fn absorb_chunk(lane: Seq<u8>, chunk: Seq<u8>) -> Seq<u8> {
    mix_rounds(xor_block(lane, chunk), zero_block())
}

/// Number of 16-byte chunks (the last one possibly partial) in `len` bytes.
pub open spec fn chunk_count(len: nat) -> nat {
    (len + 15) / 16
}

/// Number of bytes that the super-block loop consumes: the largest multiple
/// of 384 that is at most `len`.
pub open spec fn bulk_len(len: nat) -> nat {
    len / 384 * 384
}

/// The lanes of the super-block loop after it has revealed `b + 1`
/// super-blocks: super-block `b` has been XORed in but not mixed yet.
pub open spec fn bulk_pending(init: Seq<Seq<u8>>, m: Seq<u8>, b: nat) -> Seq<Seq<u8>>
    decreases b,
{
    if b == 0 {
        Seq::new(24, |i: int| xor_block(init[i], chunk_at(m, 16 * i)))
    } else {
        let p = bulk_pending(init, m, (b - 1) as nat);
        Seq::new(24, |i: int| mix_rounds(p[i], chunk_at(m, 384 * b + 16 * i)))
    }
}

/// The lanes after the super-block stage: unchanged for a message shorter
/// than one super-block, else every super-block absorbed and the last one
/// mixed with a zero-key round.
pub open spec fn bulk_absorb(init: Seq<Seq<u8>>, m: Seq<u8>) -> Seq<Seq<u8>> {
    if m.len() < 384 {
        init
    } else {
        let p = bulk_pending(init, m, (m.len() / 384 - 1) as nat);
        Seq::new(24, |i: int| mix_rounds(p[i], zero_block()))
    }
}

/// The lanes after the first `n` tail chunks, which start at byte `start`,
/// have been absorbed, chunk `t` into lane `t`.
pub open spec fn tail_absorb(lanes: Seq<Seq<u8>>, m: Seq<u8>, start: int, n: nat) -> Seq<
    Seq<u8>,
>
    decreases n,
{
    if n == 0 {
        lanes
    } else {
        let p = tail_absorb(lanes, m, start, (n - 1) as nat);
        let t = n - 1;
        p.update(t, absorb_chunk(p[t], chunk_at(m, start + 16 * t)))
    }
}

/// The XOR of lanes `0 .. n`, folded into lane 0 from left to right.
pub open spec fn fold_lanes(lanes: Seq<Seq<u8>>, n: nat) -> Seq<u8>
    decreases n,
{
    if n <= 1 {
        lanes[0]
    } else {
        xor_block(fold_lanes(lanes, (n - 1) as nat), lanes[n - 1])
    }
}

/// Finalization: fold the lanes, XOR in the length block, whiten.
pub open spec fn finalize(lanes: Seq<Seq<u8>>, len: nat) -> Seq<u8> {
    mix_rounds(xor_block(fold_lanes(lanes, 24), length_block(len)), zero_block())
}

/// The lanes after the super-block and the tail stages.
pub open spec fn absorbed_lanes(m: Seq<u8>) -> Seq<Seq<u8>> {
    let start = bulk_len(m.len());
    tail_absorb(bulk_absorb(seed_lanes(), m), m, start as int, chunk_count((m.len() - start) as nat))
}

/// The digest of `m`, as the lane-parallel path computes it.
pub open spec fn digest(m: Seq<u8>) -> Seq<u8> {
    finalize(absorbed_lanes(m), m.len())
}

/// The reference path's round: XOR in `key`, then one zero-key AES round.
pub open spec fn xor_then_round(s: Seq<u8>, key: Seq<u8>) -> Seq<u8> {
    aes_round(xor_block(s, key), zero_block())
}

/// The reference path's absorption of one block into a lane.
pub open spec fn absorb_ref_block(lane: Seq<u8>, block: Seq<u8>) -> Seq<u8> {
    xor_then_round(xor_then_round(xor_then_round(lane, block), XOR_VALUE@), XOR_VALUE@)
}

/// The lanes after the first `n` chunks of `m` have been absorbed round-robin:
/// chunk `k` into lane `k % 24`.
pub open spec fn round_robin(m: Seq<u8>, n: nat) -> Seq<Seq<u8>>
    decreases n,
{
    if n == 0 {
        seed_lanes()
    } else {
        let p = round_robin(m, (n - 1) as nat);
        let l = (n - 1) % 24;
        p.update(l, absorb_ref_block(p[l], chunk_at(m, 16 * (n - 1))))
    }
}

/// The digest of `m`, as the round-robin reference computes it.
pub open spec fn reference_digest(m: Seq<u8>) -> Seq<u8> {
    absorb_ref_block(
        fold_lanes(round_robin(m, chunk_count(m.len())), 24),
        length_block(m.len()),
    )
}

} // verus!
