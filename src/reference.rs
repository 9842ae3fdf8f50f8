//! The reference digest: a plain round-robin absorption, one chunk into one
//! lane at a time, kept to check the lane-parallel path against.
use vstd::prelude::*;
use vstd::slice::slice_subrange;
use crate::aes::{aesenc, xor_lanes, zero_block, Block};
use crate::message::{chunk_at, u64_le_bytes, load_chunk};
use crate::model::{
    absorb_ref_block, chunk_count, fold_lanes, lanes_view, reference_digest, round_robin,
    xor_then_round,
};
use crate::params::{LaneArray, INITIAL_STATE, LANES, XOR_VALUE, ZERO_KEY};

verus! {

/// XORs `key` into `state`, then applies one zero-key AES round.
fn aes(state: Block, key: Block) -> (r: Block)
    ensures
        r@ == xor_then_round(state@, key@),
{
    let mut state = state;
    assert(ZERO_KEY@ =~= zero_block());
    state = xor_lanes(&state, &key);
    state = aesenc(&state, &ZERO_KEY);
    state
}

/// Absorbs the first (at most) 16 bytes of `data`, zero-padded, into `lane`.
fn absorb_ref(lane: &mut Block, data: &[u8])
    ensures
        final(lane)@ == absorb_ref_block(old(lane)@, chunk_at(data@, 0)),
{
    let buffer = load_chunk(data, 0);
    *lane = aes(*lane, buffer);
    *lane = aes(*lane, XOR_VALUE);
    *lane = aes(*lane, XOR_VALUE);
}

/// Computes the digest of `data` by the round-robin reference absorption:
/// chunk `k` goes into lane `k % 24`.
pub fn hash_ref(data: &[u8]) -> (r: [u8; 16])
    ensures
        r@ == reference_digest(data@),
{
    let data_len = data.len();
    let mut pos: usize = 0;
    let mut state: LaneArray = INITIAL_STATE;

    // Process message data.
    let mut lane_i: usize = 0;
    let ghost mut n: nat = 0;
    while pos < data.len()
        invariant
            pos <= data.len(),
            n == chunk_count(pos as nat),
            pos == data.len() || pos == 16 * n,
            lane_i == n % 24,
            lanes_view(state) == round_robin(data@, n),
        decreases data.len() - pos,
    {
        let rest = slice_subrange(data, pos, data.len());
        assert(chunk_at(rest@, 0) =~= chunk_at(data@, 16 * n as int));
        absorb_ref(&mut state[lane_i], rest);
        let step: usize = if rest.len() < 16 {
            rest.len()
        } else {
            16
        };
        pos = pos + step;
        lane_i = (lane_i + 1) % LANES;
        proof {
            n = n + 1;
        }
        assert(lanes_view(state) =~= round_robin(data@, n));
    }
    let ghost lanes = lanes_view(state);

    // XOR all the lanes together.
    let mut i: usize = 1;
    while i < LANES
        invariant
            1 <= i <= 24,
            lanes.len() == 24,
            state@[0]@ == fold_lanes(lanes, i as nat),
            forall|j: int| 1 <= j < 24 ==> #[trigger] state@[j]@ == lanes[j],
        decreases 24 - i,
    {
        state[0] = xor_lanes(&state[0], &state[i]);
        i = i + 1;
    }

    // Incorporate the message length.
    let len_bytes = u64_le_bytes(data_len as u64);
    absorb_ref(&mut state[0], &len_bytes);
    state[0]
}

} // verus!
