use std::collections::HashSet;

use sfmt::word::{extract, insert, new};
use sfmt::{period_certification, sfmt_gen_rand_all, sfmt_init_gen_rand, SFMT, SFMTMEXP};

const EXPONENTS: [usize; 10] = [607, 1279, 2281, 4253, 11213, 19937, 44497, 86243, 132049, 216091];

fn mexp(e: usize) -> SFMTMEXP {
    SFMTMEXP::new(e).unwrap()
}

fn all() -> Vec<SFMTMEXP> {
    EXPONENTS.iter().map(|e| mexp(*e)).collect()
}

#[test]
fn same_seed_same_stream() {
    for seed in [0u32, 1, 1234, u32::MAX] {
        let mut a = SFMT::new(seed);
        let mut b = SFMT::new(seed);
        for i in 0..5000u32 {
            if i % 3 == 0 {
                assert_eq!(a.next_u64(), b.next_u64());
            } else {
                assert_eq!(a.next_u32(), b.next_u32());
            }
        }
        assert_eq!(a.state(), b.state());
        assert_eq!(a.idx(), b.idx());
    }
}

#[test]
fn different_seeds_differ() {
    let mut a = SFMT::new(1);
    let mut b = SFMT::new(2);
    let va: Vec<u32> = (0..16).map(|_| a.next_u32()).collect();
    let vb: Vec<u32> = (0..16).map(|_| b.next_u32()).collect();
    assert_ne!(va, vb);
}

#[test]
fn seeding_leaves_state_consumed() {
    let sfmt = SFMT::new(1234);
    assert_eq!(sfmt.idx(), 4 * 156);
    assert_eq!(sfmt.state().len(), 156);
}

#[test]
fn seed_bytes_are_little_endian() {
    let mut a = SFMT::from_seed(mexp(19937), [0xd2, 0x04, 0x00, 0x00]);
    let mut b = SFMT::new(1234);
    assert_eq!(a.state(), b.state());
    assert_eq!(a.next_u32(), b.next_u32());
    let c = SFMT::from_seed(mexp(607), [0x78, 0x56, 0x34, 0x12]);
    let d = SFMT::with_seed(mexp(607), 0x1234_5678);
    assert_eq!(c.state(), d.state());
}

#[test]
fn seed_expansion_lanes() {
    // lane 1 = 1812433253 * (1234 ^ (1234 >> 30)) + 1 mod 2^32
    let sfmt = SFMT::new(1234);
    let w0 = sfmt.state()[0];
    assert_eq!(extract(w0, 1), 3159640283);
    // certification flipped bit 0 of lane 0
    assert_eq!(extract(w0, 0), 1235);
}

#[test]
fn certification_twice_changes_nothing() {
    for m in all() {
        for seed in [0u32, 7, 1234, 99999] {
            let mut sfmt = SFMT::with_seed(m, seed);
            let before = sfmt.state().clone();
            period_certification(&mut sfmt);
            assert_eq!(sfmt.state(), &before);
        }
    }
}

#[test]
fn reseeding_matches_fresh_engine() {
    let mut sfmt = SFMT::new(5);
    for _ in 0..1000 {
        sfmt.next_u32();
    }
    sfmt_init_gen_rand(&mut sfmt, 1234);
    let fresh = SFMT::new(1234);
    assert_eq!(sfmt.state(), fresh.state());
    assert_eq!(sfmt.idx(), fresh.idx());
}

#[test]
fn cycle_boundary() {
    let mut sfmt = SFMT::new(1234);
    let n32 = 4 * 156;
    let mut first = Vec::new();
    for _ in 0..n32 {
        first.push(sfmt.next_u32());
    }
    assert_eq!(sfmt.idx(), n32);
    let cycle_state = sfmt.state().clone();
    for (k, v) in first.iter().enumerate() {
        assert_eq!(*v, extract(cycle_state[k / 4], k % 4));
    }
    let next = sfmt.next_u32();
    assert_eq!(sfmt.idx(), 1);
    assert_ne!(sfmt.state(), &cycle_state);
    assert_eq!(next, extract(sfmt.state()[0], 0));
}

#[test]
fn regeneration_keeps_cursor() {
    let mut a = SFMT::new(1234);
    let before = a.state().clone();
    sfmt_gen_rand_all(&mut a);
    assert_eq!(a.idx(), 4 * 156);
    assert_ne!(a.state(), &before);
    let mut b = SFMT::new(1234);
    assert_eq!(b.next_u32(), extract(a.state()[0], 0));
}

#[test]
fn full_period_boundary_19937() {
    let mut sfmt = SFMT::new(1234);
    let mut last = 0u32;
    for _ in 0..19937 * 4 {
        last = sfmt.next_u32();
    }
    let after = sfmt.next_u32();
    assert_ne!(last, after);
}

#[test]
fn u64_is_two_lanes_low_first() {
    let mut a = SFMT::new(1234);
    let r = a.next_u64();
    assert_eq!(r, 3440181298u64 | (1564997079u64 << 32));
    let mut b = SFMT::new(1234);
    b.next_u32();
    assert_eq!(b.next_u64(), 1564997079u64 | (1510669302u64 << 32));
}

#[test]
fn u64_skips_last_odd_lane() {
    let mut a = SFMT::new(42);
    let mut b = SFMT::new(42);
    for _ in 0..623 {
        a.next_u32();
        b.next_u32();
    }
    assert_eq!(a.idx(), 623);
    let wide = a.next_u64();
    assert_eq!(a.idx(), 2);
    let _skipped = b.next_u32();
    let lo = b.next_u32();
    let hi = b.next_u32();
    assert_eq!(wide, lo as u64 | ((hi as u64) << 32));
}

#[test]
fn interleaved_draws_stay_in_bounds() {
    let mut sfmt = SFMT::with_seed(mexp(607), 3);
    let n32 = 4 * 5;
    let mut prev = sfmt.idx();
    for i in 0..20000u32 {
        let width = if i % 7 < 3 {
            sfmt.next_u64();
            2
        } else {
            sfmt.next_u32();
            1
        };
        let idx = sfmt.idx();
        assert!(idx <= n32);
        assert!(idx == prev + width || idx == width);
        prev = idx;
    }
}

#[test]
fn parameter_sets_are_distinct() {
    let mut seen_mexp = HashSet::new();
    let mut seen_n = HashSet::new();
    for m in all() {
        let p = m.params();
        assert_eq!(p.mexp, m.mexp());
        assert_eq!(p.n, p.mexp / 128 + 1);
        assert!(0 < p.pos1 && p.pos1 < p.n);
        assert!(seen_mexp.insert(p.mexp));
        assert!(seen_n.insert(p.n));
        assert_eq!(SFMTMEXP::new(p.mexp), Some(m));
    }
    assert_eq!(SFMTMEXP::new(19938), None);
    assert_eq!(SFMTMEXP::new(0), None);
    assert_eq!(mexp(607).params().pos1, 2);
    assert_eq!(mexp(216091).params().parity1, 0xf800_0001);
}

#[test]
fn every_exponent_runs_a_full_state_without_repeats() {
    for m in all() {
        let mut sfmt = SFMT::with_seed(m, 1234);
        let n32 = 4 * m.params().n;
        let mut seen = HashSet::new();
        for _ in 0..n32 {
            assert!(seen.insert(sfmt.next_u32()));
        }
        assert_eq!(sfmt.idx(), n32);
    }
}

#[test]
fn lane_helpers() {
    let mut w = new(1, 2, 3, 4);
    assert_eq!(w, 1u128 | (2u128 << 32) | (3u128 << 64) | (4u128 << 96));
    assert_eq!(extract(w, 2), 3);
    insert(&mut w, 9, 2);
    assert_eq!((extract(w, 0), extract(w, 1), extract(w, 2), extract(w, 3)), (1, 2, 9, 4));
}

#[test]
fn byte_shift_crosses_lanes() {
    // sl2 = 1 byte for 19937: the top byte of lane 0 moves into lane 1.
    let p = mexp(19937).params();
    let zero = new(0, 0, 0, 0);
    let a = new(0xff00_0000, 0, 0, 0);
    let z = p.mm_recursion(a, zero, zero, zero);
    assert_eq!(extract(z, 1), 0xff);
    assert_eq!(extract(z, 0), 0xff00_0000);
}
