//! 128-bit words viewed as four 32-bit lanes, lane 0 in the low bits.
use vstd::prelude::*;

verus! {

/// Lane `i` (`0 <= i < 4`) of a word: its bits `32 * i .. 32 * i + 32`.
pub open spec fn lane(w: u128, i: int) -> u32 {
    (w >> (32 * i)) as u32
}

/// The word whose lanes, from low to high, are `l0`, `l1`, `l2`, `l3`.
pub open spec fn from_lanes(l0: u32, l1: u32, l2: u32, l3: u32) -> u128 {
    (l0 as u128) | ((l1 as u128) << 32u128) | ((l2 as u128) << 64u128) | ((l3 as u128) << 96u128)
}

/// The word `w` with lane `i` replaced by `v`.
pub open spec fn with_lane(w: u128, i: int, v: u32) -> u128 {
    from_lanes(
        if i == 0 { v } else { lane(w, 0) },
        if i == 1 { v } else { lane(w, 1) },
        if i == 2 { v } else { lane(w, 2) },
        if i == 3 { v } else { lane(w, 3) },
    )
}

/// The lanes of a word built from lanes are those lanes.
pub proof fn lemma_lanes_of_from_lanes(l0: u32, l1: u32, l2: u32, l3: u32)
    ensures
        lane(from_lanes(l0, l1, l2, l3), 0) == l0,
        lane(from_lanes(l0, l1, l2, l3), 1) == l1,
        lane(from_lanes(l0, l1, l2, l3), 2) == l2,
        lane(from_lanes(l0, l1, l2, l3), 3) == l3,
{
    assert(lane(from_lanes(l0, l1, l2, l3), 0) == l0) by (bit_vector);
    assert(lane(from_lanes(l0, l1, l2, l3), 1) == l1) by (bit_vector);
    assert(lane(from_lanes(l0, l1, l2, l3), 2) == l2) by (bit_vector);
    assert(lane(from_lanes(l0, l1, l2, l3), 3) == l3) by (bit_vector);
}

/// A word is determined by its four lanes.
pub proof fn lemma_from_lanes_of_lanes(w: u128)
    ensures
        from_lanes(lane(w, 0), lane(w, 1), lane(w, 2), lane(w, 3)) == w,
{
    assert(from_lanes(lane(w, 0), lane(w, 1), lane(w, 2), lane(w, 3)) == w) by (bit_vector);
}

/// Builds a word from its lanes, lane 0 first.
pub fn new(e0: u32, e1: u32, e2: u32, e3: u32) -> (w: u128)
    ensures
        w == from_lanes(e0, e1, e2, e3),
{
    (e0 as u128) | ((e1 as u128) << 32u32) | ((e2 as u128) << 64u32) | ((e3 as u128) << 96u32)
}

/// Lane `i` of `w`.
pub fn extract(w: u128, i: usize) -> (r: u32)
    requires
        i < 4,
    ensures
        r == lane(w, i as int),
{
    (w >> (32 * i as u32)) as u32
}

/// Replaces lane `i` of `*w` by `val`, keeping the other lanes.
pub fn insert(w: &mut u128, val: u32, i: usize)
    requires
        i < 4,
    ensures
        *final(w) == with_lane(*old(w), i as int, val),
{
    let l0 = if i == 0 { val } else { extract(*w, 0) };
    let l1 = if i == 1 { val } else { extract(*w, 1) };
    let l2 = if i == 2 { val } else { extract(*w, 2) };
    let l3 = if i == 3 { val } else { extract(*w, 3) };
    *w = new(l0, l1, l2, l3);
}

} // verus!
