//! The mathematical model of an engine: its state words and cursor, and the
//! spec functions for regeneration, seeding and period certification.
use vstd::prelude::*;
use crate::params::SfmtParams;
use crate::word::{from_lanes, lane, with_lane};

verus! {

/// `x ^ (x >> 16) ^ ...` folded down to one bit: the parity of the number of
/// bits set in `x`.
pub open spec fn fold_parity(x: u32) -> u32 {
    let x = x ^ (x >> 16u32);
    let x = x ^ (x >> 8u32);
    let x = x ^ (x >> 4u32);
    let x = x ^ (x >> 2u32);
    let x = x ^ (x >> 1u32);
    x & 1
}

/// The lowest bit set in `x` (zero when `x` is zero).
pub open spec fn lowest_set_bit(x: u32) -> u32 {
    x & ((!x + 1) as u32)
}

impl SfmtParams {
    /// Index of the second operand of the recurrence for word `i`: `i + pos1`
    /// taken around the state.
    pub open spec fn lag(self, i: int) -> int {
        if i + self.pos1 < self.n {
            i + self.pos1
        } else {
            i + self.pos1 - self.n
        }
    }

    /// The word before word `i`, taken around the state.
    pub open spec fn prev1(self, i: int) -> int {
        if i >= 1 {
            i - 1
        } else {
            self.n - 1
        }
    }

    /// The word two before word `i`, taken around the state.
    pub open spec fn prev2(self, i: int) -> int {
        if i >= 2 {
            i - 2
        } else {
            i + self.n - 2
        }
    }

    /// The state after its first `i` words have been recomputed in place, in
    /// index order: each word reads the words as they stand at that moment.
    pub open spec fn regen_prefix(self, s: Seq<u128>, i: nat) -> Seq<u128>
        decreases i,
    {
        if i == 0 {
            s
        } else {
            let t = self.regen_prefix(s, (i - 1) as nat);
            let j = i - 1;
            t.update(j, self.recursion(t[j], t[self.lag(j)], t[self.prev2(j)], t[self.prev1(j)]))
        }
    }

    /// The state after one full regeneration.
    pub open spec fn regenerate(self, s: Seq<u128>) -> Seq<u128> {
        self.regen_prefix(s, self.n as nat)
    }

    /// Recomputing words in place keeps the number of words.
    pub proof fn lemma_regen_prefix_len(self, s: Seq<u128>, i: nat)
        requires
            self.wf(),
            s.len() == self.n,
            i <= self.n,
        ensures
            self.regen_prefix(s, i).len() == s.len(),
        decreases i,
    {
        if i > 0 {
            self.lemma_regen_prefix_len(s, (i - 1) as nat);
        }
    }

    /// The parity constants masked onto the lanes of `w`, xor-ed together.
    pub open spec fn parity_inner(self, w: u128) -> u32 {
        (lane(w, 0) & self.parity1) ^ (lane(w, 1) & self.parity2) ^ (lane(w, 2) & self.parity3) ^ (
        lane(w, 3) & self.parity4)
    }

    /// A state whose first word is `w` lies on the maximal-period orbit.
    pub open spec fn is_certified(self, w: u128) -> bool {
        fold_parity(self.parity_inner(w)) == 1
    }

    /// The first lane whose parity constant is not zero, or 4 if there is none.
    pub open spec fn first_parity_lane(self) -> int {
        if self.parity1 != 0 {
            0
        } else if self.parity2 != 0 {
            1
        } else if self.parity3 != 0 {
            2
        } else if self.parity4 != 0 {
            3
        } else {
            4
        }
    }

    /// Period certification: a certified state is kept; otherwise the lowest
    /// bit of the first nonzero parity constant is flipped in the matching
    /// lane of the first word.
    pub open spec fn certify(self, s: Seq<u128>) -> Seq<u128> {
        let i = self.first_parity_lane();
        if self.is_certified(s[0]) || i == 4 {
            s
        } else {
            s.update(0, with_lane(s[0], i, lane(s[0], i) ^ lowest_set_bit(self.parity(i))))
        }
    }
}

/// One step of the seeding recurrence, in 32-bit wrapping arithmetic.
pub open spec fn seed_iterate(prev: u32, i: int) -> u32 {
    ((1812433253 * (prev ^ (prev >> 30u32)) + i) % 0x1_0000_0000) as u32
}

/// Lane `k` of the state that seed expansion writes.
pub open spec fn seed_lane(seed: u32, k: nat) -> u32
    decreases k,
{
    if k == 0 {
        seed
    } else {
        seed_iterate(seed_lane(seed, (k - 1) as nat), k as int)
    }
}

/// The `n` words that seed expansion writes, before certification.
pub open spec fn expand(seed: u32, n: nat) -> Seq<u128> {
    Seq::new(
        n,
        |w: int|
            from_lanes(
                seed_lane(seed, (4 * w) as nat),
                seed_lane(seed, (4 * w + 1) as nat),
                seed_lane(seed, (4 * w + 2) as nat),
                seed_lane(seed, (4 * w + 3) as nat),
            ),
    )
}

/// The 32-bit value whose little-endian bytes are `b[0]`, ..., `b[3]`.
pub open spec fn u32_from_le(b: Seq<u8>) -> u32 {
    (b[0] + 0x100 * b[1] + 0x1_0000 * b[2] + 0x100_0000 * b[3]) as u32
}

/// The state of an engine: its parameter set, its words, and the cursor
/// counting the 32-bit lanes read since the last regeneration.
pub struct SfmtView {
    pub params: SfmtParams,
    pub state: Seq<u128>,
    pub idx: nat,
}

impl SfmtView {
    pub open spec fn wf(self) -> bool {
        &&& self.params.wf()
        &&& self.state.len() == self.params.n
        &&& self.idx <= self.params.n32()
    }

    /// An engine just seeded with `seed`: expanded, certified, fully consumed.
    pub open spec fn seeded(params: SfmtParams, seed: u32) -> SfmtView {
        SfmtView { params, state: params.certify(expand(seed, params.n as nat)), idx: params.n32() }
    }

    /// Lane `k` of the state read as one sequence of 32-bit values.
    pub open spec fn lane_at(self, k: int) -> u32 {
        lane(self.state[k / 4], k % 4)
    }

    /// The engine after a regeneration: new words, cursor at 0.
    pub open spec fn regenerated(self) -> SfmtView {
        SfmtView { state: self.params.regenerate(self.state), idx: 0, ..self }
    }

    /// A 32-bit draw: regenerate when every lane is consumed, then read the
    /// lane under the cursor and advance it by one.
    pub open spec fn next32(self) -> (u32, SfmtView) {
        let v = if self.idx >= self.params.n32() {
            self.regenerated()
        } else {
            self
        };
        (v.lane_at(v.idx as int), SfmtView { idx: v.idx + 1, ..v })
    }

    /// A 64-bit draw: regenerate unless two lanes are left, then read the lane
    /// under the cursor as the low half and the next one as the high half,
    /// and advance the cursor by two.
    pub open spec fn next64(self) -> (u64, SfmtView) {
        let v = if self.idx + 1 >= self.params.n32() {
            self.regenerated()
        } else {
            self
        };
        (
            (v.lane_at(v.idx as int) as u64) | ((v.lane_at(v.idx + 1int) as u64) << 32u64),
            SfmtView { idx: v.idx + 2, ..v },
        )
    }
}

} // verus!
