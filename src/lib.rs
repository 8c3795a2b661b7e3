//! Client-side proof-of-work: find the least nonce whose SHA-256 digest,
//! taken over the challenge followed by the nonce in decimal, starts with a
//! required number of zero hex digits.
pub mod decimal;
pub mod digest;
pub mod solver;
pub mod laws;

pub use solver::{meets_difficulty, solve_nonce, solve_pow, PowError};
