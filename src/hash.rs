//! The lane-parallel digest: super-blocks absorbed group by group, then the
//! tail chunk by chunk, then finalization.
use vstd::prelude::*;
use crate::aes::{aes_round, aesenc, xor_block, xor_lanes, zero_block, Block};
use crate::message::{chunk_at, load_chunk, u64_le_bytes};
use crate::model::{
    absorbed_lanes, bulk_absorb, bulk_len, bulk_pending, chunk_count, digest, fold_lanes,
    lanes_view, mix_rounds, tail_absorb,
};
use crate::params::{LaneArray, INITIAL_STATE, LANES, LANES_PER_SET, SUPER_BLOCK, XOR_VALUE, ZERO_KEY};

verus! {

/// Applies one AES round keyed with `key` to each lane of the group that
/// starts at lane `start`.
fn round_group(state: &mut LaneArray, start: usize, key: &Block)
    requires
        start + LANES_PER_SET <= LANES,
    ensures
        forall|j: int|
            0 <= j < 24 ==> #[trigger] final(state)@[j]@ == if start <= j < start + 6 {
                aes_round(old(state)@[j]@, key@)
            } else {
                old(state)@[j]@
            },
{
    let ghost s0 = *state;
    let end: usize = start + LANES_PER_SET;
    let mut i: usize = start;
    while i < end
        invariant
            start <= i <= end,
            end == start + 6,
            end <= 24,
            forall|j: int|
                0 <= j < 24 ==> #[trigger] state@[j]@ == if start <= j < i {
                    aes_round(s0@[j]@, key@)
                } else {
                    s0@[j]@
                },
        decreases end - i,
    {
        state[i] = aesenc(&state[i], key);
        i = i + 1;
    }
}

/// Absorbs the largest prefix of `data` whose length is a multiple of the
/// super-block size, and returns that length.
///
/// A message shorter than one super-block leaves the lanes as they are.
/// Otherwise the first super-block is XORed into the lanes, and for each
/// further super-block every group of lanes takes two mixing rounds and a
/// third round keyed with the new super-block's chunks; a last pass mixes
/// with a zero-key round.
fn process_data_bulk(state: &mut LaneArray, data: &[u8]) -> (consumed: usize)
    ensures
        consumed == bulk_len(data@.len()),
        lanes_view(*final(state)) == bulk_absorb(lanes_view(*old(state)), data@),
{
    let block_size: usize = SUPER_BLOCK;
    assert(block_size == 384);
    if data.len() < block_size {
        return 0;
    }
    let ghost init = lanes_view(*state);
    let mut pos: usize = 0;

    // XOR in the first super-block.
    let mut i: usize = 0;
    while i < LANES
        invariant
            i <= 24,
            pos == 16 * i,
            data.len() >= 384,
            init.len() == 24,
            forall|j: int|
                0 <= j < 24 ==> #[trigger] state@[j]@ == if j < i {
                    xor_block(init[j], chunk_at(data@, 16 * j))
                } else {
                    init[j]
                },
        decreases 24 - i,
    {
        let chunk = load_chunk(data, pos);
        state[i] = xor_lanes(&state[i], &chunk);
        pos = pos + 16;
        i = i + 1;
    }
    assert(lanes_view(*state) =~= bulk_pending(init, data@, 0));

    // Mix the lanes, and key their third round with the next super-block.
    while data.len() - pos >= block_size
        invariant
            384 <= pos <= data.len(),
            pos % 384 == 0,
            block_size == 384,
            init.len() == 24,
            lanes_view(*state) == bulk_pending(init, data@, (pos / 384 - 1) as nat),
        decreases data.len() - pos,
    {
        let ghost prev = lanes_view(*state);
        let ghost base = pos;
        let mut cur: usize = 0;
        while cur < LANES
            invariant
                cur <= 24,
                cur % 6 == 0,
                pos == base + 16 * cur,
                base + 384 <= data.len(),
                prev.len() == 24,
                forall|j: int|
                    0 <= j < 24 ==> #[trigger] state@[j]@ == if j < cur {
                        mix_rounds(prev[j], chunk_at(data@, base + 16 * j))
                    } else {
                        prev[j]
                    },
            decreases 24 - cur,
        {
            let start: usize = cur;
            let end: usize = cur + LANES_PER_SET;
            round_group(state, start, &XOR_VALUE);
            round_group(state, start, &XOR_VALUE);
            let mut i: usize = start;
            while i < end
                invariant
                    start <= i <= end,
                    end == start + 6,
                    end <= 24,
                    pos == base + 16 * i,
                    base + 384 <= data.len(),
                    forall|j: int|
                        0 <= j < 24 ==> #[trigger] state@[j]@ == if j < i {
                            mix_rounds(prev[j], chunk_at(data@, base + 16 * j))
                        } else if j < end {
                            aes_round(aes_round(prev[j], XOR_VALUE@), XOR_VALUE@)
                        } else {
                            prev[j]
                        },
                decreases end - i,
            {
                // The third round's key XOR brings in the next chunk.
                let chunk = load_chunk(data, pos);
                state[i] = aesenc(&state[i], &chunk);
                pos = pos + 16;
                i = i + 1;
            }
            cur = end;
        }
        proof {
            let b = (pos / 384 - 1) as nat;
            assert(base == 384 * b);
            assert(lanes_view(*state) =~= bulk_pending(init, data@, b));
        }
    }

    // Mix the lanes once more, to diffuse the last super-block.
    let ghost last = lanes_view(*state);
    assert(ZERO_KEY@ =~= zero_block());
    let mut cur: usize = 0;
    while cur < LANES
        invariant
            cur <= 24,
            cur % 6 == 0,
            last.len() == 24,
            ZERO_KEY@ == zero_block(),
            forall|j: int|
                0 <= j < 24 ==> #[trigger] state@[j]@ == if j < cur {
                    mix_rounds(last[j], zero_block())
                } else {
                    last[j]
                },
        decreases 24 - cur,
    {
        round_group(state, cur, &XOR_VALUE);
        round_group(state, cur, &XOR_VALUE);
        round_group(state, cur, &ZERO_KEY);
        cur = cur + LANES_PER_SET;
    }
    assert(pos / 384 == data@.len() / 384);
    assert(lanes_view(*state) =~= bulk_absorb(init, data@));
    pos
}

/// Absorbs the bytes of `data` from `start` on, fewer than one super-block:
/// the `t`-th 16-byte chunk into lane `t`, and a last partial chunk,
/// zero-padded, into the next lane.
fn process_data_tail(state: &mut LaneArray, data: &[u8], start: usize)
    requires
        start <= data@.len(),
        data@.len() - start < 384,
    ensures
        lanes_view(*final(state)) == tail_absorb(
            lanes_view(*old(state)),
            data@,
            start as int,
            chunk_count((data@.len() - start) as nat),
        ),
{
    let ghost init = lanes_view(*state);
    let ghost zero_key = ZERO_KEY@;
    assert(zero_key =~= zero_block());
    let mut pos: usize = start;

    // Full 16-byte chunks.
    let mut lane: usize = 0;
    while data.len() - pos >= 16
        invariant
            start <= pos <= data.len(),
            data@.len() - start < 384,
            pos == start + 16 * lane,
            zero_key == ZERO_KEY@,
            zero_key == zero_block(),
            lanes_view(*state) == tail_absorb(init, data@, start as int, lane as nat),
        decreases data.len() - pos,
    {
        let ghost before = lanes_view(*state);
        let chunk = load_chunk(data, pos);
        state[lane] = xor_lanes(&state[lane], &chunk);
        state[lane] = aesenc(&state[lane], &XOR_VALUE);
        state[lane] = aesenc(&state[lane], &XOR_VALUE);
        state[lane] = aesenc(&state[lane], &ZERO_KEY);
        pos = pos + 16;
        lane = lane + 1;
        assert(lanes_view(*state) =~= tail_absorb(init, data@, start as int, lane as nat));
    }

    // A last chunk shorter than 16 bytes, zero-padded.
    if data.len() > pos {
        let buffer = load_chunk(data, pos);
        state[lane] = xor_lanes(&state[lane], &buffer);
        state[lane] = aesenc(&state[lane], &XOR_VALUE);
        state[lane] = aesenc(&state[lane], &XOR_VALUE);
        state[lane] = aesenc(&state[lane], &ZERO_KEY);
        assert(chunk_count((data@.len() - start) as nat) == lane + 1);
        assert(lanes_view(*state) =~= tail_absorb(init, data@, start as int, (lane + 1) as nat));
    } else {
        assert(chunk_count((data@.len() - start) as nat) == lane);
    }
}

/// Computes the 128-bit digest of `data`.
pub fn hash(data: &[u8]) -> (r: [u8; 16])
    ensures
        r@ == digest(data@),
{
    let mut state: LaneArray = INITIAL_STATE;

    // Process message data.
    let consumed = process_data_bulk(&mut state, data);
    process_data_tail(&mut state, data, consumed);
    let ghost lanes = lanes_view(state);
    assert(lanes == absorbed_lanes(data@));

    // XOR all the lanes together.
    let mut i: usize = 1;
    while i < LANES
        invariant
            1 <= i <= 24,
            lanes.len() == 24,
            state@[0]@ == fold_lanes(lanes, i as nat),
            forall|j: int| 1 <= j < 24 ==> #[trigger] state@[j]@ == lanes[j],
        decreases 24 - i,
    {
        state[0] = xor_lanes(&state[0], &state[i]);
        i = i + 1;
    }

    // Incorporate the message length.
    let len_bytes = u64_le_bytes(data.len() as u64);
    let buffer = load_chunk(&len_bytes, 0);
    assert(ZERO_KEY@ =~= zero_block());
    state[0] = xor_lanes(&state[0], &buffer);
    state[0] = aesenc(&state[0], &XOR_VALUE);
    state[0] = aesenc(&state[0], &XOR_VALUE);
    state[0] = aesenc(&state[0], &ZERO_KEY);
    state[0]
}

} // verus!
