//! Properties of the generator that relate several operations, proved over
//! the model in `state`.
use vstd::prelude::*;
use crate::params::{params_of, supported, SfmtParams};
use crate::state::{fold_parity, lowest_set_bit, SfmtView};
use crate::word::{from_lanes, lane, lemma_from_lanes_of_lanes, lemma_lanes_of_from_lanes, with_lane};

verus! {

/// Number of 32-bit lanes a draw reads: two for a 64-bit draw, one otherwise.
pub open spec fn width(wide: bool) -> nat {
    if wide {
        2
    } else {
        1
    }
}

/// One draw: 64-bit when `wide`, else 32-bit (widened to `u64`).
pub open spec fn step(v: SfmtView, wide: bool) -> (u64, SfmtView) {
    if wide {
        v.next64()
    } else {
        (v.next32().0 as u64, v.next32().1)
    }
}

/// The engine after the draws `ops` (`true` for a 64-bit draw).
pub open spec fn after(v: SfmtView, ops: Seq<bool>) -> SfmtView
    decreases ops.len(),
{
    if ops.len() == 0 {
        v
    } else {
        step(after(v, ops.drop_last()), ops.last()).1
    }
}

/// The values that the draws `ops` return, in order.
pub open spec fn outputs(v: SfmtView, ops: Seq<bool>) -> Seq<u64>
    decreases ops.len(),
{
    if ops.len() == 0 {
        seq![]
    } else {
        outputs(v, ops.drop_last()).push(step(after(v, ops.drop_last()), ops.last()).0)
    }
}

/// `k` successive 32-bit draws.
pub open spec fn narrow_draws(k: nat) -> Seq<bool> {
    Seq::new(k, |i: int| false)
}

/// Determinism: two engines seeded alike with the same parameter set return
/// the same values for the same sequence of draws, and end in the same state.
pub proof fn lemma_same_seed_same_stream(
    a: SfmtView,
    b: SfmtView,
    mexp: usize,
    seed: u32,
    ops: Seq<bool>,
)
    requires
        supported(mexp),
        a == SfmtView::seeded(params_of(mexp), seed),
        b == SfmtView::seeded(params_of(mexp), seed),
    ensures
        outputs(a, ops) == outputs(b, ops),
        after(a, ops) == after(b, ops),
{
}

/// A regenerated state has as many words as before.
pub proof fn lemma_regenerated_wf(v: SfmtView)
    requires
        v.wf(),
    ensures
        v.regenerated().wf(),
{
    v.params.lemma_regen_prefix_len(v.state, v.params.n as nat);
}

/// Interleaved draws: whatever mix of 32-bit and 64-bit draws is made, the
/// cursor stays within the state, and each draw either reads the lanes right
/// after the cursor of the same state and advances past them, or regenerates
/// the state and reads its first lanes. No lane is read twice in one cycle.
pub proof fn lemma_interleaved_draws(v: SfmtView, ops: Seq<bool>)
    requires
        v.wf(),
    ensures
        after(v, ops).wf(),
        forall|i: int|
            0 <= i < ops.len() ==> {
                let u = #[trigger] after(v, ops.take(i));
                let w = after(v, ops.take(i + 1));
                &&& u.wf()
                &&& w.wf()
                &&& ((w.state == u.state && w.idx == u.idx + width(ops[i])) || (w.state
                    == u.params.regenerate(u.state) && w.idx == width(ops[i])))
            },
    decreases ops.len(),
{
    if ops.len() > 0 {
        let prev = ops.drop_last();
        lemma_interleaved_draws(v, prev);
        let u = after(v, prev);
        lemma_regenerated_wf(u);
        assert forall|i: int| 0 <= i < ops.len() implies {
            let u = #[trigger] after(v, ops.take(i));
            let w = after(v, ops.take(i + 1));
            &&& u.wf()
            &&& w.wf()
            &&& ((w.state == u.state && w.idx == u.idx + width(ops[i])) || (w.state
                == u.params.regenerate(u.state) && w.idx == width(ops[i])))
        } by {
            assert(ops.take(i + 1).drop_last() =~= ops.take(i));
            if i < prev.len() {
                assert(ops.take(i) =~= prev.take(i));
                assert(ops.take(i + 1) =~= prev.take(i + 1));
            } else {
                assert(ops.take(i) =~= prev);
                assert(ops.take(i + 1) =~= ops);
            }
        }
    }
}

/// True when `a` and `b` differ in at most one bit.
pub open spec fn differ_in_at_most_one_bit(a: u128, b: u128) -> bool {
    let d = a ^ b;
    d & ((d - 1) as u128) == 0
}

/// Flipping the lowest bit of a nonzero parity constant in its lane flips the
/// folded parity of the masked lanes from 0 to 1.
proof fn lemma_flip_certifies(w: u128, p: SfmtParams, i: int)
    requires
        0 <= i < 4,
        p.parity(i) != 0,
        !p.is_certified(w),
    ensures
        p.is_certified(with_lane(w, i, lane(w, i) ^ lowest_set_bit(p.parity(i)))),
        differ_in_at_most_one_bit(w, with_lane(w, i, lane(w, i) ^ lowest_set_bit(p.parity(i)))),
{
    let (l0, l1, l2, l3) = (lane(w, 0), lane(w, 1), lane(w, 2), lane(w, 3));
    let (q0, q1, q2, q3) = (p.parity1, p.parity2, p.parity3, p.parity4);
    let b = lowest_set_bit(p.parity(i));
    let w2 = with_lane(w, i, lane(w, i) ^ b);
    lemma_from_lanes_of_lanes(w);
    if i == 0 {
        lemma_lanes_of_from_lanes(l0 ^ b, l1, l2, l3);
        assert(fold_parity((l0 & q0) ^ (l1 & q1) ^ (l2 & q2) ^ (l3 & q3)) != 1 && q0 != 0 ==> fold_parity(
            ((l0 ^ (q0 & ((!q0 + 1) as u32))) & q0) ^ (l1 & q1) ^ (l2 & q2) ^ (l3 & q3),
        ) == 1) by (bit_vector);
        assert(differ_in_at_most_one_bit(from_lanes(l0, l1, l2, l3), from_lanes(l0 ^ b, l1, l2, l3)))
            by (bit_vector)
            requires
                b == q0 & ((!q0 + 1) as u32),
        ;
    } else if i == 1 {
        lemma_lanes_of_from_lanes(l0, l1 ^ b, l2, l3);
        assert(fold_parity((l0 & q0) ^ (l1 & q1) ^ (l2 & q2) ^ (l3 & q3)) != 1 && q1 != 0 ==> fold_parity(
            (l0 & q0) ^ ((l1 ^ (q1 & ((!q1 + 1) as u32))) & q1) ^ (l2 & q2) ^ (l3 & q3),
        ) == 1) by (bit_vector);
        assert(differ_in_at_most_one_bit(from_lanes(l0, l1, l2, l3), from_lanes(l0, l1 ^ b, l2, l3)))
            by (bit_vector)
            requires
                b == q1 & ((!q1 + 1) as u32),
        ;
    } else if i == 2 {
        lemma_lanes_of_from_lanes(l0, l1, l2 ^ b, l3);
        assert(fold_parity((l0 & q0) ^ (l1 & q1) ^ (l2 & q2) ^ (l3 & q3)) != 1 && q2 != 0 ==> fold_parity(
            (l0 & q0) ^ (l1 & q1) ^ ((l2 ^ (q2 & ((!q2 + 1) as u32))) & q2) ^ (l3 & q3),
        ) == 1) by (bit_vector);
        assert(differ_in_at_most_one_bit(from_lanes(l0, l1, l2, l3), from_lanes(l0, l1, l2 ^ b, l3)))
            by (bit_vector)
            requires
                b == q2 & ((!q2 + 1) as u32),
        ;
    } else {
        lemma_lanes_of_from_lanes(l0, l1, l2, l3 ^ b);
        assert(fold_parity((l0 & q0) ^ (l1 & q1) ^ (l2 & q2) ^ (l3 & q3)) != 1 && q3 != 0 ==> fold_parity(
            (l0 & q0) ^ (l1 & q1) ^ (l2 & q2) ^ ((l3 ^ (q3 & ((!q3 + 1) as u32))) & q3),
        ) == 1) by (bit_vector);
        assert(differ_in_at_most_one_bit(from_lanes(l0, l1, l2, l3), from_lanes(l0, l1, l2, l3 ^ b)))
            by (bit_vector)
            requires
                b == q3 & ((!q3 + 1) as u32),
        ;
    }
}

/// Period certification is idempotent: it changes at most one bit of the
/// first word and nothing else, leaves a certified state whenever some parity
/// constant is nonzero, and a second run changes nothing.
pub proof fn lemma_certification_idempotent(p: SfmtParams, s: Seq<u128>)
    requires
        p.wf(),
        s.len() == p.n,
    ensures
        p.certify(s) == s.update(0, p.certify(s)[0]),
        differ_in_at_most_one_bit(s[0], p.certify(s)[0]),
        p.first_parity_lane() < 4 ==> p.is_certified(p.certify(s)[0]),
        p.certify(p.certify(s)) == p.certify(s),
{
    let i = p.first_parity_lane();
    if p.is_certified(s[0]) || i == 4 {
        assert(s.update(0, s[0]) =~= s);
        let d = s[0] ^ s[0];
        assert(d & ((d - 1) as u128) == 0) by (bit_vector)
            requires
                d == s[0] ^ s[0],
        ;
    } else {
        lemma_flip_certifies(s[0], p, i);
    }
}

/// Every supported exponent has a well-formed parameter set of its own:
/// distinct exponents differ in exponent and in state length.
pub proof fn lemma_parameter_sets(a: usize, b: usize)
    requires
        supported(a),
        supported(b),
    ensures
        params_of(a).wf(),
        params_of(a).mexp == a,
        a != b ==> params_of(a) != params_of(b),
        a != b ==> params_of(a).n != params_of(b).n,
{
}

proof fn lemma_cycle_prefix(v: SfmtView, k: nat)
    requires
        v.wf(),
        v.idx == v.params.n32(),
        1 <= k <= v.params.n32(),
    ensures
        after(v, narrow_draws(k)) == (SfmtView {
            state: v.params.regenerate(v.state),
            idx: k,
            ..v
        }),
        outputs(v, narrow_draws(k)) == Seq::new(
            k,
            |j: int| lane(v.params.regenerate(v.state)[j / 4], j % 4) as u64,
        ),
    decreases k,
{
    let fresh = v.params.regenerate(v.state);
    assert(narrow_draws(k).drop_last() =~= narrow_draws((k - 1) as nat));
    if k == 1 {
        assert(narrow_draws(0) =~= Seq::<bool>::empty());
        assert(outputs(v, narrow_draws(0)) == Seq::<u64>::empty());
        assert(outputs(v, narrow_draws(k))[0] == lane(fresh[0], 0) as u64);
        assert(outputs(v, narrow_draws(k)) =~= Seq::new(k, |j: int| lane(fresh[j / 4], j % 4) as u64));
    } else {
        lemma_cycle_prefix(v, (k - 1) as nat);
        assert(outputs(v, narrow_draws(k)) =~= Seq::new(k, |j: int| lane(fresh[j / 4], j % 4) as u64));
    }
}

/// The cycle boundary: from a fully consumed state, such as a freshly seeded
/// one, `4 * n` successive 32-bit draws return every lane of the regenerated
/// state in order and consume it completely; the next draw returns the first
/// lane of the state regenerated once more.
pub proof fn lemma_cycle_boundary(v: SfmtView)
    requires
        v.wf(),
        v.idx == v.params.n32(),
    ensures
        outputs(v, narrow_draws(v.params.n32())) == Seq::new(
            v.params.n32(),
            |j: int| lane(v.params.regenerate(v.state)[j / 4], j % 4) as u64,
        ),
        after(v, narrow_draws(v.params.n32())) == (SfmtView {
            state: v.params.regenerate(v.state),
            ..v
        }),
        outputs(v, narrow_draws(v.params.n32() + 1))[v.params.n32() as int] == lane(
            v.params.regenerate(v.params.regenerate(v.state))[0],
            0,
        ) as u64,
{
    let n32 = v.params.n32();
    lemma_cycle_prefix(v, n32);
    assert(narrow_draws(n32 + 1).drop_last() =~= narrow_draws(n32));
}

/// A freshly seeded engine is well formed and fully consumed, so the cycle
/// boundary applies to it.
pub proof fn lemma_seeded_wf(mexp: usize, seed: u32)
    requires
        supported(mexp),
    ensures
        SfmtView::seeded(params_of(mexp), seed).wf(),
        SfmtView::seeded(params_of(mexp), seed).idx == params_of(mexp).n32(),
{
    lemma_parameter_sets(mexp, mexp);
}

} // verus!
