//! SIMD-oriented Fast Mersenne Twister (SFMT): a pseudorandom number
//! generator over 128-bit words, verified against its mathematical model.
//!
//! `word` views a 128-bit word as four 32-bit lanes, `params` holds the
//! parameter set of each supported Mersenne exponent, `recurrence` the
//! recurrence over four words, `state` the model of an engine, `engine` the
//! generator itself, and `laws` the properties that relate its operations.
pub mod engine;
pub mod laws;
pub mod params;
pub mod recurrence;
pub mod state;
pub mod word;

pub use engine::{period_certification, sfmt_gen_rand_all, sfmt_init_gen_rand, SFMT};
pub use params::{SfmtParams, SFMTMEXP};
