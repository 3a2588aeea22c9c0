//! The parameter sets of the generator, one per supported Mersenne exponent.
use vstd::prelude::*;

verus! {

/// The constants of one parameter set.
#[derive(Clone, Copy, Debug, PartialEq, Eq, Structural)]
pub struct SfmtParams {
    /// The Mersenne exponent: the period is a multiple of `2^mexp - 1`.
    pub mexp: usize,
    /// Number of 128-bit words in the state: `mexp / 128 + 1`.
    pub n: usize,
    /// Lag, in words, of the second operand of the recurrence.
    pub pos1: usize,
    /// Left shift of each 32-bit lane, in bits.
    pub sl1: u32,
    /// Left shift of the whole word, in bytes.
    pub sl2: u32,
    /// Right shift of each 32-bit lane, in bits.
    pub sr1: u32,
    /// Right shift of the whole word, in bytes.
    pub sr2: u32,
    /// Mask of lane 0 applied to the right-shifted second operand.
    pub msk1: u32,
    /// Mask of lane 1.
    pub msk2: u32,
    /// Mask of lane 2.
    pub msk3: u32,
    /// Mask of lane 3.
    pub msk4: u32,
    /// Parity constant of lane 0, for period certification.
    pub parity1: u32,
    /// Parity constant of lane 1.
    pub parity2: u32,
    /// Parity constant of lane 2.
    pub parity3: u32,
    /// Parity constant of lane 3.
    pub parity4: u32,
}

impl SfmtParams {
    /// The shape every parameter set has: the state holds at least two
    /// words, the lag lies inside it, and every shift is in range.
    pub open spec fn wf(self) -> bool {
        &&& self.n == self.mexp / 128 + 1
        &&& 2 <= self.n <= 2000
        &&& 0 < self.pos1 < self.n
        &&& self.sl1 < 32
        &&& self.sr1 < 32
        &&& self.sl2 < 16
        &&& self.sr2 < 16
    }

    /// Number of 32-bit lanes in the state.
    pub open spec fn n32(self) -> nat {
        4 * self.n as nat
    }

    /// The parity constant of lane `i`.
    pub open spec fn parity(self, i: int) -> u32 {
        if i == 0 {
            self.parity1
        } else if i == 1 {
            self.parity2
        } else if i == 2 {
            self.parity3
        } else {
            self.parity4
        }
    }
}

/// The parameter set with the given constants; `n` follows from `mexp`.
pub open spec fn param_set(
    mexp: usize,
    pos1: usize,
    sl1: u32,
    sl2: u32,
    sr1: u32,
    sr2: u32,
    msk1: u32,
    msk2: u32,
    msk3: u32,
    msk4: u32,
    parity1: u32,
    parity2: u32,
    parity3: u32,
    parity4: u32,
) -> SfmtParams {
    SfmtParams {
        mexp,
        n: (mexp / 128 + 1) as usize,
        pos1,
        sl1,
        sl2,
        sr1,
        sr2,
        msk1,
        msk2,
        msk3,
        msk4,
        parity1,
        parity2,
        parity3,
        parity4,
    }
}

fn make_params(
    mexp: usize,
    pos1: usize,
    sl1: u32,
    sl2: u32,
    sr1: u32,
    sr2: u32,
    msk1: u32,
    msk2: u32,
    msk3: u32,
    msk4: u32,
    parity1: u32,
    parity2: u32,
    parity3: u32,
    parity4: u32,
) -> (p: SfmtParams)
    requires
        mexp < 1_000_000,
    ensures
        p == param_set(
            mexp, pos1, sl1, sl2, sr1, sr2, msk1, msk2, msk3, msk4, parity1, parity2, parity3, parity4,
        ),
{
    SfmtParams {
        mexp,
        n: mexp / 128 + 1,
        pos1,
        sl1,
        sl2,
        sr1,
        sr2,
        msk1,
        msk2,
        msk3,
        msk4,
        parity1,
        parity2,
        parity3,
        parity4,
    }
}

/// True for the Mersenne exponents that have a parameter set.
pub open spec fn supported(mexp: usize) -> bool {
    ||| mexp == 607
    ||| mexp == 1279
    ||| mexp == 2281
    ||| mexp == 4253
    ||| mexp == 11213
    ||| mexp == 19937
    ||| mexp == 44497
    ||| mexp == 86243
    ||| mexp == 132049
    ||| mexp == 216091
}

/// The parameter set of the supported exponent `mexp`.
pub open spec fn params_of(mexp: usize) -> SfmtParams
    recommends
        supported(mexp),
{
    if mexp == 607 {
        param_set(607, 2, 15, 3, 13, 3,
            0xfdff37ff, 0xef7f3f7d, 0xff777b7d, 0x7ff7fb2f,
            0x00000001, 0x00000000, 0x00000000, 0x5986f054)
    } else if mexp == 1279 {
        param_set(1279, 7, 14, 3, 5, 1,
            0xf7fefffd, 0x7fefcfff, 0xaff3ef3f, 0xb5ffff7f,
            0x00000001, 0x00000000, 0x00000000, 0x20000000)
    } else if mexp == 2281 {
        param_set(2281, 12, 19, 1, 5, 1,
            0xbff7ffbf, 0xfdfffffe, 0xf7ffef7f, 0xf2f7cbbf,
            0x00000001, 0x00000000, 0x00000000, 0x41dfa600)
    } else if mexp == 4253 {
        param_set(4253, 17, 20, 1, 7, 1,
            0x9f7bffff, 0x9fffff5f, 0x3efffffb, 0xfffff7bb,
            0xa8000001, 0xaf5390a3, 0xb740b3f8, 0x6c11486d)
    } else if mexp == 11213 {
        param_set(11213, 68, 14, 3, 7, 3,
            0xeffff7fb, 0xffffffef, 0xdfdfbfff, 0x7fffdbfd,
            0x00000001, 0x00000000, 0xb740b3f8, 0x6c11486d)
    } else if mexp == 19937 {
        param_set(19937, 122, 18, 1, 11, 1,
            0xdfffffef, 0xddfecb7f, 0xbffaffff, 0xbffffff6,
            0x00000001, 0x00000000, 0x00000000, 0x13c9e684)
    } else if mexp == 44497 {
        param_set(44497, 330, 5, 3, 9, 3,
            0xeffffffb, 0xdfbebfff, 0xbfbf7bef, 0x9ffd7bff,
            0x00000001, 0x00000000, 0xa3ac4000, 0xecc1327a)
    } else if mexp == 86243 {
        param_set(86243, 366, 6, 7, 19, 1,
            0xfdbfbff7, 0xfd77efff, 0xfd77efff, 0xbf9ff3ff,
            0x00000001, 0x00000000, 0x00000000, 0x39528d85)
    } else if mexp == 132049 {
        param_set(132049, 110, 19, 1, 21, 1,
            0xffffbb5f, 0xfb6ebf95, 0xfffefffa, 0xcff77fff,
            0x00000001, 0x00000000, 0xcb520000, 0xc7e91c7d)
    } else {
        param_set(216091, 627, 11, 3, 10, 1,
            0xbff7bff7, 0xbfffffff, 0xbffffa7f, 0xffddfbfb,
            0xf8000001, 0x89e80709, 0x3bd2b64b, 0x0c64b1e4)
    }
}

/// A supported Mersenne exponent, which selects a parameter set. No other
/// exponent can be wrapped.
#[derive(Clone, Copy, Debug, PartialEq, Eq)]
pub struct SFMTMEXP {
    mexp: usize,
}

impl View for SFMTMEXP {
    type V = usize;

    closed spec fn view(&self) -> usize {
        self.mexp
    }
}

impl SFMTMEXP {
    #[verifier::type_invariant]
    spec fn inv(self) -> bool {
        supported(self.mexp)
    }

    /// The exponent `mexp`, if it is supported.
    pub fn new(mexp: usize) -> (r: Option<SFMTMEXP>)
        ensures
            r is Some <==> supported(mexp),
            r matches Some(m) ==> m@ == mexp,
    {
        if mexp == 607 || mexp == 1279 || mexp == 2281 || mexp == 4253 || mexp == 11213 || mexp
            == 19937 || mexp == 44497 || mexp == 86243 || mexp == 132049 || mexp == 216091 {
            Some(SFMTMEXP { mexp })
        } else {
            None
        }
    }

    /// The Mersenne exponent.
    pub fn mexp(&self) -> (r: usize)
        ensures
            r == self@,
            supported(r),
    {
        proof {
            use_type_invariant(self);
        }
        self.mexp
    }

    /// The parameter set of this exponent.
    pub fn params(&self) -> (p: SfmtParams)
        ensures
            p == params_of(self@),
            p.wf(),
    {
        proof {
            use_type_invariant(self);
        }
        if self.mexp == 607 {
            make_params(607, 2, 15, 3, 13, 3,
                0xfdff37ff, 0xef7f3f7d, 0xff777b7d, 0x7ff7fb2f,
                0x00000001, 0x00000000, 0x00000000, 0x5986f054)
        } else if self.mexp == 1279 {
            make_params(1279, 7, 14, 3, 5, 1,
                0xf7fefffd, 0x7fefcfff, 0xaff3ef3f, 0xb5ffff7f,
                0x00000001, 0x00000000, 0x00000000, 0x20000000)
        } else if self.mexp == 2281 {
            make_params(2281, 12, 19, 1, 5, 1,
                0xbff7ffbf, 0xfdfffffe, 0xf7ffef7f, 0xf2f7cbbf,
                0x00000001, 0x00000000, 0x00000000, 0x41dfa600)
        } else if self.mexp == 4253 {
            make_params(4253, 17, 20, 1, 7, 1,
                0x9f7bffff, 0x9fffff5f, 0x3efffffb, 0xfffff7bb,
                0xa8000001, 0xaf5390a3, 0xb740b3f8, 0x6c11486d)
        } else if self.mexp == 11213 {
            make_params(11213, 68, 14, 3, 7, 3,
                0xeffff7fb, 0xffffffef, 0xdfdfbfff, 0x7fffdbfd,
                0x00000001, 0x00000000, 0xb740b3f8, 0x6c11486d)
        } else if self.mexp == 19937 {
            make_params(19937, 122, 18, 1, 11, 1,
                0xdfffffef, 0xddfecb7f, 0xbffaffff, 0xbffffff6,
                0x00000001, 0x00000000, 0x00000000, 0x13c9e684)
        } else if self.mexp == 44497 {
            make_params(44497, 330, 5, 3, 9, 3,
                0xeffffffb, 0xdfbebfff, 0xbfbf7bef, 0x9ffd7bff,
                0x00000001, 0x00000000, 0xa3ac4000, 0xecc1327a)
        } else if self.mexp == 86243 {
            make_params(86243, 366, 6, 7, 19, 1,
                0xfdbfbff7, 0xfd77efff, 0xfd77efff, 0xbf9ff3ff,
                0x00000001, 0x00000000, 0x00000000, 0x39528d85)
        } else if self.mexp == 132049 {
            make_params(132049, 110, 19, 1, 21, 1,
                0xffffbb5f, 0xfb6ebf95, 0xfffefffa, 0xcff77fff,
                0x00000001, 0x00000000, 0xcb520000, 0xc7e91c7d)
        } else {
            make_params(216091, 627, 11, 3, 10, 1,
                0xbff7bff7, 0xbfffffff, 0xbffffa7f, 0xffddfbfb,
                0xf8000001, 0x89e80709, 0x3bd2b64b, 0x0c64b1e4)
        }
    }
}

} // verus!
