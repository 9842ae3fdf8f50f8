//! Properties of the digest that relate its two paths.
use vstd::prelude::*;
use crate::aes::{aes_round, mix_columns, shift_rows, sub_bytes, xor_block, zero_block};
use crate::message::{chunk_at, length_block};
use crate::model::{
    absorb_chunk, absorb_ref_block, absorbed_lanes, bulk_absorb, bulk_len, bulk_pending,
    chunk_count, digest, fold_lanes, reference_digest, round_robin, seed_lanes,
    tail_absorb, xor_then_round,
};
use crate::params::XOR_VALUE;

verus! {

/// Lanes after the first `n` chunks of `m` have been absorbed, chunk `k` into
/// lane `k % 24`, with the lane-parallel path's absorption step.
spec fn spread(init: Seq<Seq<u8>>, m: Seq<u8>, n: nat) -> Seq<Seq<u8>>
    decreases n,
{
    if n == 0 {
        init
    } else {
        let p = spread(init, m, (n - 1) as nat);
        let k = n - 1;
        p.update(k % 24, absorb_chunk(p[k % 24], chunk_at(m, 16 * k)))
    }
}

/// 24 lanes of 16 bytes each.
spec fn well_formed(lanes: Seq<Seq<u8>>) -> bool {
    &&& lanes.len() == 24
    &&& forall|i: int| 0 <= i < 24 ==> (#[trigger] lanes[i]).len() == 16
}

proof fn lemma_aes_round_len(s: Seq<u8>, key: Seq<u8>)
    ensures
        (#[trigger] aes_round(s, key)).len() == 16,
{
    reveal(aes_round);
}

/// A round keyed with `key` is a zero-key round followed by an XOR with `key`.
proof fn lemma_round_key_split(s: Seq<u8>, key: Seq<u8>)
    requires
        key.len() == 16,
    ensures
        aes_round(s, key) == xor_block(aes_round(s, zero_block()), key),
{
    reveal(aes_round);
    let a = aes_round(s, key);
    let b = xor_block(aes_round(s, zero_block()), key);
    assert forall|i: int| 0 <= i < 16 implies a[i] == b[i] by {
        let q = mix_columns(shift_rows(sub_bytes(s)))[i];
        let z = zero_block()[i];
        let k = key[i];
        assert(z == 0);
        assert(a[i] == q ^ k);
        assert(b[i] == (q ^ z) ^ k);
        assert(((q ^ z) ^ k) == q ^ k) by (bit_vector)
            requires
                z == 0u8,
        ;
    }
    assert(a =~= b);
}

/// The reference absorption step equals the lane-parallel one.
proof fn lemma_absorb_ref_block(lane: Seq<u8>, block: Seq<u8>)
    ensures
        absorb_ref_block(lane, block) == absorb_chunk(lane, block),
{
    let x = XOR_VALUE@;
    let z = zero_block();
    let t = xor_block(lane, block);
    lemma_round_key_split(t, x);
    lemma_round_key_split(aes_round(t, x), x);
    assert(xor_then_round(lane, block) == aes_round(t, z));
}

proof fn lemma_absorb_chunk_len(lane: Seq<u8>, chunk: Seq<u8>)
    ensures
        (#[trigger] absorb_chunk(lane, chunk)).len() == 16,
{
    lemma_aes_round_len(
        aes_round(aes_round(xor_block(lane, chunk), XOR_VALUE@), XOR_VALUE@),
        zero_block(),
    );
}

proof fn lemma_spread_well_formed(init: Seq<Seq<u8>>, m: Seq<u8>, n: nat)
    requires
        well_formed(init),
    ensures
        well_formed(spread(init, m, n)),
    decreases n,
{
    if n > 0 {
        lemma_spread_well_formed(init, m, (n - 1) as nat);
        let p = spread(init, m, (n - 1) as nat);
        let k = n - 1;
        lemma_absorb_chunk_len(p[k % 24], chunk_at(m, 16 * k));
    }
}

/// The round-robin reference lanes are `spread` from the seed.
proof fn lemma_round_robin(m: Seq<u8>, n: nat)
    ensures
        round_robin(m, n) == spread(seed_lanes(), m, n),
    decreases n,
{
    if n > 0 {
        lemma_round_robin(m, (n - 1) as nat);
        let p = round_robin(m, (n - 1) as nat);
        let l = (n - 1) % 24;
        lemma_absorb_ref_block(p[l], chunk_at(m, 16 * (n - 1)));
    }
}

/// Absorbing the first `j` chunks of super-block `q` touches lanes `0 .. j`,
/// one chunk each.
proof fn lemma_spread_block(init: Seq<Seq<u8>>, m: Seq<u8>, q: nat, j: nat)
    requires
        well_formed(init),
        j <= 24,
    ensures
        spread(init, m, 24 * q + j) =~= ({
            let s = spread(init, m, 24 * q);
            Seq::new(
                24,
                |i: int|
                    if i < j {
                        absorb_chunk(s[i], chunk_at(m, 384 * q + 16 * i))
                    } else {
                        s[i]
                    },
            )
        }),
    decreases j,
{
    lemma_spread_well_formed(init, m, 24 * q);
    if j > 0 {
        lemma_spread_block(init, m, q, (j - 1) as nat);
        let k = 24 * q + j - 1;
        assert(k % 24 == j - 1);
        assert(16 * k == 384 * q + 16 * (j - 1));
    }
}

/// The tail stage, starting at super-block `q`, is `spread` continued.
proof fn lemma_tail_absorb(init: Seq<Seq<u8>>, m: Seq<u8>, q: nat, t: nat)
    requires
        well_formed(init),
        t <= 24,
    ensures
        tail_absorb(spread(init, m, 24 * q), m, 384 * q as int, t) == spread(init, m, 24 * q + t),
    decreases t,
{
    lemma_spread_well_formed(init, m, 24 * q);
    lemma_spread_block(init, m, q, t);
    if t > 0 {
        lemma_tail_absorb(init, m, q, (t - 1) as nat);
        lemma_spread_block(init, m, q, (t - 1) as nat);
    }
    assert(tail_absorb(spread(init, m, 24 * q), m, 384 * q as int, t) =~= spread(init, m, 24 * q + t));
}

/// The super-block loop keeps each lane one chunk ahead of `spread`: the
/// lane has absorbed super-blocks `0 .. b`, and super-block `b` is XORed in.
proof fn lemma_bulk_pending(init: Seq<Seq<u8>>, m: Seq<u8>, b: nat)
    requires
        well_formed(init),
    ensures
        bulk_pending(init, m, b) =~= ({
            let s = spread(init, m, 24 * b);
            Seq::new(24, |i: int| xor_block(s[i], chunk_at(m, 384 * b + 16 * i)))
        }),
    decreases b,
{
    if b > 0 {
        let pb = (b - 1) as nat;
        lemma_bulk_pending(init, m, pb);
        lemma_spread_block(init, m, pb, 24);
        let s = spread(init, m, 24 * pb);
        assert(24 * pb + 24 == 24 * b);
        assert forall|i: int| 0 <= i < 24 implies #[trigger] bulk_pending(init, m, b)[i]
            == xor_block(spread(init, m, 24 * b)[i], chunk_at(m, 384 * b + 16 * i)) by {
            let x = xor_block(s[i], chunk_at(m, 384 * pb + 16 * i));
            let r2 = aes_round(aes_round(x, XOR_VALUE@), XOR_VALUE@);
            lemma_round_key_split(r2, chunk_at(m, 384 * b + 16 * i));
        }
    }
}

/// The super-block stage is `spread` over all whole super-blocks.
proof fn lemma_bulk_absorb(init: Seq<Seq<u8>>, m: Seq<u8>)
    requires
        well_formed(init),
    ensures
        bulk_absorb(init, m) == spread(init, m, 24 * (m.len() / 384)),
{
    if m.len() >= 384 {
        let b = (m.len() / 384 - 1) as nat;
        lemma_bulk_pending(init, m, b);
        lemma_spread_block(init, m, b, 24);
        assert(24 * b + 24 == 24 * (m.len() / 384));
        assert(bulk_absorb(init, m) =~= spread(init, m, 24 * (m.len() / 384)));
    }
}

/// Splitting a message at the end of its last whole super-block splits its
/// chunk count.
proof fn lemma_chunk_count_split(len: nat)
    ensures
        chunk_count(len) == 24 * (len / 384) + chunk_count((len - bulk_len(len)) as nat),
        chunk_count((len - bulk_len(len)) as nat) <= 24,
{
    let q = len / 384;
    let r = len % 384;
    assert(len == 384 * q + r);
    assert(bulk_len(len) == 384 * q);
    assert((384 * q + r + 15) / 16 == 24 * q + (r + 15) / 16) by (nonlinear_arith)
        requires
            0 <= r < 384,
            q >= 0,
    ;
}

/// The lanes after both absorption stages are those of the round-robin
/// reference.
proof fn lemma_absorbed_lanes(m: Seq<u8>)
    ensures
        absorbed_lanes(m) == round_robin(m, chunk_count(m.len())),
{
    let q = m.len() / 384;
    let init = seed_lanes();
    lemma_chunk_count_split(m.len());
    lemma_bulk_absorb(init, m);
    let t = chunk_count((m.len() - bulk_len(m.len())) as nat);
    assert(bulk_len(m.len()) == 384 * q);
    lemma_tail_absorb(init, m, q, t);
    lemma_round_robin(m, chunk_count(m.len()));
}

/// Oracle equivalence: for every message, the lane-parallel digest equals
/// the round-robin reference digest.
pub proof fn lemma_oracle_equivalence(m: Seq<u8>)
    ensures
        digest(m) == reference_digest(m),
{
    let n = chunk_count(m.len());
    lemma_absorbed_lanes(m);
    lemma_round_robin(m, n);
    lemma_spread_well_formed(seed_lanes(), m, n);
    let lanes = round_robin(m, n);
    lemma_absorb_ref_block(fold_lanes(lanes, 24), length_block(m.len()));
}

/// Determinism: equal messages have equal digests, on either path.
pub proof fn lemma_deterministic(m1: Seq<u8>, m2: Seq<u8>)
    requires
        m1 == m2,
    ensures
        digest(m1) == digest(m2),
        reference_digest(m1) == reference_digest(m2),
{
}

} // verus!
