use rand_core::SeedableRng;
use sfmt::word::{extract, new};
use sfmt::{SFMT, SFMTMEXP};

/// The first published SFMT-19937 outputs for seed 1234.
const ANSWER_1234: [u32; 20] = [
    3440181298, 1564997079, 1510669302, 2930277156, 1452439940, 3796268453, 423124208, 2143818589,
    3827219408, 2987036003, 2674978610, 1536842514, 2027035537, 2534897563, 1686527725, 545368292,
    1489013321, 1370534252, 4231012796, 3994803019,
];

fn mexp(e: usize) -> SFMTMEXP {
    SFMTMEXP::new(e).unwrap()
}

fn split(a: u128) -> (u32, u32, u32, u32) {
    (extract(a, 0), extract(a, 1), extract(a, 2), extract(a, 3))
}

/// Captures the seed bytes that `SeedableRng::seed_from_u64` derives.
struct SeedBytes([u8; 4]);

impl SeedableRng for SeedBytes {
    type Seed = [u8; 4];

    fn from_seed(seed: [u8; 4]) -> Self {
        SeedBytes(seed)
    }
}

fn seed_from_u64(m: SFMTMEXP, state: u64) -> SFMT {
    SFMT::from_seed(m, SeedBytes::seed_from_u64(state).0)
}

fn interleave(m: SFMTMEXP, rounds: usize) {
    let mut rng = seed_from_u64(m, 0);
    for _ in 0..rounds {
        // Many draws, so that the cursor wraps around the state many times.
        let r = rng.next_u64();
        if r % 2 == 0 {
            // An odd number of lanes moves the cursor off the even positions.
            let _r = rng.next_u32();
        }
    }
}

#[test]
fn lib_gen_u32() {
    let mut sfmt = SFMT::new(1234);
    for (t, val) in ANSWER_1234.iter().enumerate() {
        let r = sfmt.next_u32();
        println!("[{}] gen = {}, ans = {}", t, r, val);
        assert_eq!(r, *val);
    }
}

#[test]
fn sfmt_gen_u32() {
    let seed: u32 = 1234;
    let mut sfmt = SFMT::from_seed(mexp(19937), seed.to_le_bytes());
    for (t, val) in ANSWER_1234.iter().enumerate() {
        let r = sfmt.next_u32();
        println!("[{}] gen = {}, ans = {}", t, r, val);
        assert_eq!(r, *val);
    }
}

#[test]
fn sfmt_test_init() {
    let seed: u32 = 1234;
    let sfmt = SFMT::from_seed(mexp(19937), seed.to_le_bytes());
    let ans = [
        new(1235, 3159640283, 4062961311, 3954462607),
        new(3112783424, 2849714703, 731821095, 2232873578),
        new(1251953424, 3917199038, 231030171, 268845362),
    ];
    assert_eq!(sfmt.state().len(), 19937 / 128 + 1);
    for (v, a) in sfmt.state().iter().zip(ans.iter()) {
        assert_eq!(split(*v), split(*a));
    }
}

#[test]
fn test_mm_recursion() {
    let p = mexp(19937).params();
    let a = new(1, 2, 3, 4);
    let b = new(431, 232, 83, 14);
    let c = new(213, 22, 93, 234);
    let d = new(112, 882, 23, 124);
    let z = p.mm_recursion(a, a, a, a);
    let zc = new(33816833, 50856450, 67896067, 1049604);
    assert_eq!(z, zc);
    let z = p.mm_recursion(a, b, c, d);
    let zc = new(398459137, 1355284994, -363068669i32 as u32, 32506884);
    assert_eq!(z, zc);
}

#[test]
fn test_mm_recursion_19937() {
    let p = mexp(19937).params();
    let a = new(1, 2, 3, 4);
    let z = p.mm_recursion(a, a, a, a);
    let zc = new(33816833, 50856450, 67896067, 1049604);
    assert_eq!(split(z), split(zc));

    let b = new(431, 232, 83, 14);
    let c = new(213, 22, 93, 234);
    let d = new(112, 882, 23, 124);
    let z = p.mm_recursion(a, b, c, d);
    let zc = new(398459137, 1355284994, -363068669i32 as u32, 32506884);
    assert_eq!(split(z), split(zc));
}

#[test]
fn random_607() {
    interleave(mexp(607), 607 * 20);
}

#[test]
fn random_19937() {
    interleave(mexp(19937), 19937 * 20);
}

#[test]
fn random_44497() {
    interleave(mexp(44497), 44497 * 20);
}

#[test]
fn random_86243() {
    interleave(mexp(86243), 86243 * 20);
}

#[test]
fn random_216091() {
    interleave(mexp(216091), 216091 * 20);
}
