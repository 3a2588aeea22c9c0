//! The recurrence that computes one new state word from four others.
use vstd::prelude::*;
use crate::params::SfmtParams;
use crate::word::{extract, from_lanes, lane, new};

verus! {

/// Each 32-bit lane of `w` shifted right by `s` bits.
pub open spec fn shr_lanes(w: u128, s: u32) -> u128 {
    from_lanes(lane(w, 0) >> s, lane(w, 1) >> s, lane(w, 2) >> s, lane(w, 3) >> s)
}

/// Each 32-bit lane of `w` shifted left by `s` bits, within the lane.
pub open spec fn shl_lanes(w: u128, s: u32) -> u128 {
    from_lanes(lane(w, 0) << s, lane(w, 1) << s, lane(w, 2) << s, lane(w, 3) << s)
}

/// The whole word `w` shifted right by `s` bytes.
pub open spec fn shr_bytes(w: u128, s: u32) -> u128 {
    w >> (8 * s)
}

/// The whole word `w` shifted left by `s` bytes; bits shifted out are lost.
pub open spec fn shl_bytes(w: u128, s: u32) -> u128 {
    w << (8 * s)
}

impl SfmtParams {
    /// The four lane masks as one word.
    pub open spec fn mask(self) -> u128 {
        from_lanes(self.msk1, self.msk2, self.msk3, self.msk4)
    }

    /// The recurrence over words `a`, `b`, `c`, `d`.
    pub open spec fn recursion(self, a: u128, b: u128, c: u128, d: u128) -> u128 {
        let y = shr_lanes(b, self.sr1);
        let z = shr_bytes(c, self.sr2);
        let v = shl_lanes(d, self.sl1);
        let z = z ^ a ^ v;
        let x = shl_bytes(a, self.sl2);
        let y = y & self.mask();
        let z = z ^ x;
        z ^ y
    }

    /// Computes the recurrence over words `a`, `b`, `c`, `d`.
    pub fn mm_recursion(&self, a: u128, b: u128, c: u128, d: u128) -> (r: u128)
        requires
            self.wf(),
        ensures
            r == self.recursion(a, b, c, d),
    {
        let mask = new(self.msk1, self.msk2, self.msk3, self.msk4);
        let y = shift_right_lanes(b, self.sr1);
        let z = c >> (8 * self.sr2);
        let v = shift_left_lanes(d, self.sl1);
        let z = z ^ a ^ v;
        let x = a << (8 * self.sl2);
        let y = y & mask;
        let z = z ^ x;
        z ^ y
    }
}

fn shift_right_lanes(w: u128, s: u32) -> (r: u128)
    requires
        s < 32,
    ensures
        r == shr_lanes(w, s),
{
    new(extract(w, 0) >> s, extract(w, 1) >> s, extract(w, 2) >> s, extract(w, 3) >> s)
}

fn shift_left_lanes(w: u128, s: u32) -> (r: u128)
    requires
        s < 32,
    ensures
        r == shl_lanes(w, s),
{
    new(extract(w, 0) << s, extract(w, 1) << s, extract(w, 2) << s, extract(w, 3) << s)
}

} // verus!
