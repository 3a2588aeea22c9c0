//! The generator: a state of 128-bit words and a cursor over its 32-bit
//! lanes, with regeneration, seeding, period certification and draws.
use vstd::prelude::*;
use crate::params::{params_of, SfmtParams, SFMTMEXP};
use crate::state::{
    expand, lowest_set_bit, seed_iterate, seed_lane, u32_from_le, SfmtView,
};
use crate::word::{extract, from_lanes, insert, lane, new};

verus! {

/// True when the `k` low bits of `x` are all zero (`k <= 32`).
spec fn low_bits_clear(x: u32, k: u32) -> bool {
    (x << ((32 - k) as u32)) == 0
}

proof fn lemma_low_bits_clear_start(x: u32)
    ensures
        low_bits_clear(x, 0),
{
    assert((x << ((32 - 0u32) as u32)) == 0) by (bit_vector);
}

proof fn lemma_low_bits_clear_step(x: u32, k: u32)
    requires
        k < 32,
        low_bits_clear(x, k),
        (1u32 << k) & x == 0,
    ensures
        low_bits_clear(x, (k + 1) as u32),
        (1u32 << k) << 1u32 == 1u32 << ((k + 1) as u32),
{
    assert(k < 32 && (x << ((32 - k) as u32)) == 0 && (1u32 << k) & x == 0 ==> (x << ((32 - (k
        + 1)) as u32)) == 0) by (bit_vector);
    assert(k < 32 ==> (1u32 << k) << 1u32 == 1u32 << ((k + 1) as u32)) by (bit_vector);
}

proof fn lemma_low_bits_clear_found(x: u32, k: u32)
    requires
        k < 32,
        low_bits_clear(x, k),
        (1u32 << k) & x != 0,
    ensures
        lowest_set_bit(x) == 1u32 << k,
        x != 0,
{
    assert((1u32 << k) & x != 0 ==> x != 0) by (bit_vector);
    assert(k < 32 && (x << ((32 - k) as u32)) == 0 && (1u32 << k) & x != 0 ==> x & ((!x + 1) as u32)
        == 1u32 << k) by (bit_vector);
}

proof fn lemma_low_bits_clear_all(x: u32)
    requires
        low_bits_clear(x, 32),
    ensures
        x == 0,
{
    assert((x << ((32 - 32u32) as u32)) == 0 ==> x == 0) by (bit_vector);
}

/// The state of an SFMT generator.
pub struct SFMT {
    params: SfmtParams,
    state: Vec<u128>,
    idx: usize,
}

impl Clone for SFMT {
    /// An independent engine in the same state.
    fn clone(&self) -> (r: SFMT)
        ensures
            r@ == self@,
    {
        SFMT { params: self.params, state: self.state.clone(), idx: self.idx }
    }
}

impl View for SFMT {
    type V = SfmtView;

    closed spec fn view(&self) -> SfmtView {
        SfmtView { params: self.params, state: self.state@, idx: self.idx as nat }
    }
}

fn parity_of(p: &SfmtParams, i: usize) -> (r: u32)
    requires
        i < 4,
    ensures
        r == p.parity(i as int),
{
    if i == 0 {
        p.parity1
    } else if i == 1 {
        p.parity2
    } else if i == 2 {
        p.parity3
    } else {
        p.parity4
    }
}

/// Period certification: leaves a certified state as it is, and otherwise
/// flips the lowest bit of the first nonzero parity constant in the matching
/// lane of the first word.
pub fn period_certification(sfmt: &mut SFMT)
    requires
        old(sfmt)@.wf(),
    ensures
        final(sfmt)@ == (SfmtView { state: old(sfmt)@.params.certify(old(sfmt)@.state), ..old(sfmt)@ }),
{
    let p = sfmt.params;
    let w0 = sfmt.state[0];
    let mut inner: u32 = (extract(w0, 0) & p.parity1) ^ (extract(w0, 1) & p.parity2) ^ (extract(w0, 2)
        & p.parity3) ^ (extract(w0, 3) & p.parity4);
    inner = inner ^ (inner >> 16u32);
    inner = inner ^ (inner >> 8u32);
    inner = inner ^ (inner >> 4u32);
    inner = inner ^ (inner >> 2u32);
    inner = inner ^ (inner >> 1u32);
    inner = inner & 1;
    if inner == 1 {
        return;
    }
    let mut i: usize = 0;
    while i < 4
        invariant
            i <= 4,
            p == sfmt.params,
            sfmt@ == old(sfmt)@,
            sfmt@.wf(),
            w0 == sfmt@.state[0],
            !p.is_certified(w0),
            forall|j: int| 0 <= j < i ==> p.parity(j) == 0,
        decreases 4 - i,
    {
        let par = parity_of(&p, i);
        let mut work: u32 = 1;
        let mut k: u32 = 0;
        proof {
            lemma_low_bits_clear_start(par);
            assert(1u32 << 0u32 == 1u32) by (bit_vector);
        }
        while k < 32
            invariant
                k <= 32,
                i < 4,
                par == p.parity(i as int),
                work == 1u32 << k,
                low_bits_clear(par, k),
                p == sfmt.params,
                sfmt@ == old(sfmt)@,
                sfmt@.wf(),
            sfmt@.wf(),
                w0 == sfmt@.state[0],
                !p.is_certified(w0),
                forall|j: int| 0 <= j < i ==> p.parity(j) == 0,
            decreases 32 - k,
        {
            if (work & par) != 0 {
                proof {
                    lemma_low_bits_clear_found(par, k);
                }
                let val = extract(w0, i) ^ work;
                let mut w = w0;
                insert(&mut w, val, i);
                sfmt.state.set(0, w);
                proof {
                    assert(p.first_parity_lane() == i);
                    assert(sfmt@.state =~= p.certify(old(sfmt)@.state));
                }
                return;
            }
            proof {
                lemma_low_bits_clear_step(par, k);
            }
            work = work << 1u32;
            k = k + 1;
        }
        proof {
            lemma_low_bits_clear_all(par);
        }
        i = i + 1;
    }
}

/// Regenerates the whole state in place, word by word in index order. The
/// cursor is left as it is.
pub fn sfmt_gen_rand_all(sfmt: &mut SFMT)
    requires
        old(sfmt)@.wf(),
    ensures
        final(sfmt)@ == (SfmtView {
            state: old(sfmt)@.params.regenerate(old(sfmt)@.state),
            ..old(sfmt)@
        }),
{
    let p = sfmt.params;
    let n = p.n;
    let mut r1 = sfmt.state[n - 2];
    let mut r2 = sfmt.state[n - 1];
    let mut i: usize = 0;
    while i < n
        invariant
            i <= n,
            n == p.n,
            p == sfmt.params,
            p.wf(),
            sfmt.idx == old(sfmt).idx,
            sfmt.state@.len() == n,
            sfmt.state@ == p.regen_prefix(old(sfmt)@.state, i as nat),
            r1 == sfmt.state@[p.prev2(i as int)],
            r2 == sfmt.state@[p.prev1(i as int)],
        decreases n - i,
    {
        let lag = if i + p.pos1 < n {
            i + p.pos1
        } else {
            i + p.pos1 - n
        };
        let w = p.mm_recursion(sfmt.state[i], sfmt.state[lag], r1, r2);
        sfmt.state.set(i, w);
        r1 = r2;
        r2 = w;
        i = i + 1;
    }
}

/// One step of the seeding recurrence: `1812433253 * (pre ^ (pre >> 30)) + i`,
/// wrapping at 32 bits.
fn iterate(pre: u32, i: u32) -> (r: u32)
    ensures
        r == seed_iterate(pre, i as int),
{
    let t = pre ^ (pre >> 30u32);
    let m = 1812433253u32.wrapping_mul(t);
    let r = m.wrapping_add(i);
    proof {
        let x = 1812433253 * (t as int);
        vstd::arithmetic::div_mod::lemma_add_mod_noop(x, i as int, 0x1_0000_0000);
        vstd::arithmetic::div_mod::lemma_small_mod(i as nat, 0x1_0000_0000);
        if m + i > u32::MAX {
            vstd::arithmetic::div_mod::lemma_mod_sub_multiples_vanish(m + i, 0x1_0000_0000);
            vstd::arithmetic::div_mod::lemma_small_mod((m + i - 0x1_0000_0000) as nat, 0x1_0000_0000);
        } else {
            vstd::arithmetic::div_mod::lemma_small_mod((m + i) as nat, 0x1_0000_0000);
        }
    }
    r
}

/// The word of lanes `a` and the three values that follow it in the seeding
/// recurrence, for word `idx`, and the value after those.
fn map(a: u32, idx: u32) -> (r: (u128, u32))
    requires
        idx < 0x1000_0000,
    ensures
        r.0 == from_lanes(
            a,
            seed_iterate(a, 4 * idx + 1),
            seed_iterate(seed_iterate(a, 4 * idx + 1), 4 * idx + 2),
            seed_iterate(seed_iterate(seed_iterate(a, 4 * idx + 1), 4 * idx + 2), 4 * idx + 3),
        ),
        r.1 == seed_iterate(
            seed_iterate(seed_iterate(seed_iterate(a, 4 * idx + 1), 4 * idx + 2), 4 * idx + 3),
            4 * idx + 4,
        ),
{
    let b = iterate(a, 4 * idx + 1);
    let c = iterate(b, 4 * idx + 2);
    let d = iterate(c, 4 * idx + 3);
    let a2 = iterate(d, 4 * idx + 4);
    (new(a, b, c, d), a2)
}

/// Seeds the engine: fills the state from `seed` by the seeding recurrence,
/// marks every lane consumed, and certifies the period.
pub fn sfmt_init_gen_rand(sfmt: &mut SFMT, seed: u32)
    requires
        old(sfmt)@.wf(),
    ensures
        final(sfmt)@ == SfmtView::seeded(old(sfmt)@.params, seed),
{
    let p = sfmt.params;
    let n = p.n;
    let ghost target = expand(seed, n as nat);
    let mut pre: u32 = seed;
    let mut idx: usize = 0;
    while idx < n
        invariant
            idx <= n,
            n == p.n,
            p == sfmt.params,
            p.wf(),
            sfmt.state@.len() == n,
            sfmt.idx <= p.n32(),
            target == expand(seed, n as nat),
            pre == seed_lane(seed, (4 * idx) as nat),
            forall|w: int| 0 <= w < idx ==> sfmt.state@[w] == target[w],
        decreases n - idx,
    {
        let ghost k = (4 * idx) as nat;
        proof {
            assert(seed_lane(seed, k + 1) == seed_iterate(seed_lane(seed, k), (k + 1) as int));
            assert(seed_lane(seed, k + 2) == seed_iterate(seed_lane(seed, k + 1), (k + 2) as int));
            assert(seed_lane(seed, k + 3) == seed_iterate(seed_lane(seed, k + 2), (k + 3) as int));
            assert(seed_lane(seed, k + 4) == seed_iterate(seed_lane(seed, k + 3), (k + 4) as int));
        }
        let (v, next) = map(pre, idx as u32);
        sfmt.state.set(idx, v);
        pre = next;
        idx = idx + 1;
    }
    sfmt.idx = 4 * n;
    proof {
        assert(sfmt.state@ =~= target);
    }
    period_certification(sfmt);
}

impl SFMT {
    /// Regenerates the state and rewinds the cursor.
    fn gen_all(&mut self)
        requires
            old(self)@.wf(),
        ensures
            final(self)@ == old(self)@.regenerated(),
            final(self)@.wf(),
    {
        sfmt_gen_rand_all(self);
        self.idx = 0;
        proof {
            old(self)@.params.lemma_regen_prefix_len(old(self)@.state, old(self)@.params.n as nat);
        }
    }
}

impl SFMT {
    /// An engine with the parameter set of exponent 19937, seeded with `seed`.
    pub fn new(seed: u32) -> (r: SFMT)
        ensures
            r@ == SfmtView::seeded(params_of(19937), seed),
            r@.wf(),
    {
        SFMT::with_seed(SFMTMEXP::new(19937).unwrap(), seed)
    }

    /// An engine with the parameter set of `mexp`, seeded with `seed`.
    pub fn with_seed(mexp: SFMTMEXP, seed: u32) -> (r: SFMT)
        ensures
            r@ == SfmtView::seeded(params_of(mexp@), seed),
            r@.wf(),
    {
        let params = mexp.params();
        let mut state: Vec<u128> = Vec::new();
        while state.len() < params.n
            invariant
                state@.len() <= params.n,
            decreases params.n - state@.len(),
        {
            state.push(0);
        }
        let mut sfmt = SFMT { params, state, idx: 0 };
        sfmt_init_gen_rand(&mut sfmt, seed);
        sfmt
    }

    /// An engine with the parameter set of `mexp`, seeded with the 32-bit
    /// value whose little-endian bytes are `seed`.
    pub fn from_seed(mexp: SFMTMEXP, seed: [u8; 4]) -> (r: SFMT)
        ensures
            r@ == SfmtView::seeded(params_of(mexp@), u32_from_le(seed@)),
            r@.wf(),
    {
        let b0 = seed[0];
        let b1 = seed[1];
        let b2 = seed[2];
        let b3 = seed[3];
        let s = (b0 as u32) | ((b1 as u32) << 8u32) | ((b2 as u32) << 16u32) | ((b3 as u32) << 24u32);
        proof {
            assert((b0 as u32) | ((b1 as u32) << 8u32) | ((b2 as u32) << 16u32) | ((b3 as u32) << 24u32)
                == (b0 + 0x100 * b1 + 0x1_0000 * b2 + 0x100_0000 * b3) as u32) by (bit_vector);
        }
        SFMT::with_seed(mexp, s)
    }

    /// The parameter set of this engine.
    pub fn params(&self) -> (r: SfmtParams)
        ensures
            r == self@.params,
    {
        self.params
    }

    /// The state words.
    pub fn state(&self) -> (r: &Vec<u128>)
        ensures
            r@ == self@.state,
    {
        &self.state
    }

    /// The cursor: the number of 32-bit lanes read since the last regeneration.
    pub fn idx(&self) -> (r: usize)
        ensures
            r == self@.idx,
    {
        self.idx
    }

    /// Reads the lane under the cursor and advances it by one.
    fn pop32(&mut self) -> (r: u32)
        requires
            old(self)@.wf(),
            old(self)@.idx < old(self)@.params.n32(),
        ensures
            r == old(self)@.lane_at(old(self)@.idx as int),
            final(self)@ == (SfmtView { idx: old(self)@.idx + 1, ..old(self)@ }),
            final(self)@.wf(),
    {
        let val = extract(self.state[self.idx / 4], self.idx % 4);
        self.idx = self.idx + 1;
        val
    }

    /// Reads the lane under the cursor as the low half and the next lane as
    /// the high half, and advances the cursor by two.
    fn pop64(&mut self) -> (r: u64)
        requires
            old(self)@.wf(),
            old(self)@.idx + 1 < old(self)@.params.n32(),
        ensures
            r == (old(self)@.lane_at(old(self)@.idx as int) as u64) | ((old(self)@.lane_at(
                old(self)@.idx + 1int,
            ) as u64) << 32u64),
            final(self)@ == (SfmtView { idx: old(self)@.idx + 2, ..old(self)@ }),
            final(self)@.wf(),
    {
        let lo = self.pop32();
        let hi = self.pop32();
        (lo as u64) | ((hi as u64) << 32u64)
    }

    /// The next 32-bit value. When every lane has been read, the state is
    /// regenerated first.
    pub fn next_u32(&mut self) -> (r: u32)
        requires
            old(self)@.wf(),
        ensures
            (r, final(self)@) == old(self)@.next32(),
            final(self)@.wf(),
    {
        if self.idx >= 4 * self.params.n {
            self.gen_all();
        }
        self.pop32()
    }

    /// The next 64-bit value, from two consecutive lanes, the first one low.
    /// When fewer than two lanes are left, the state is regenerated first and
    /// a last unread lane is skipped.
    pub fn next_u64(&mut self) -> (r: u64)
        requires
            old(self)@.wf(),
        ensures
            (r, final(self)@) == old(self)@.next64(),
            final(self)@.wf(),
    {
        if self.idx + 1 >= 4 * self.params.n {
            self.gen_all();
        }
        self.pop64()
    }
}

} // verus!
