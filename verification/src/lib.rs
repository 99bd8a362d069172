//! Aggregation pipeline for zero-knowledge proofs over BN254.
//!
//! The library compiles a verifying key into a protocol descriptor,
//! succinctly re-verifies each input proof into an accumulator (a pair of
//! curve points standing for a deferred pairing check), folds the
//! accumulators into one, decides the folded accumulator with a single
//! pairing check, and lays out the public instance and calldata bytes that
//! an on-chain verifier consumes.
//!
//! Coordinates travel as four 64-bit words; inside the circuit's public
//! instance each coordinate is decomposed into four limbs of 68 bits,
//! the foreign-field representation of the proof curve's base field.

pub mod accum;
pub mod calldata;
pub mod circuit;
pub mod curve;
pub mod errors;
pub mod field;
pub mod keys;
pub mod point;
pub mod protocol;
pub mod succinct;
pub mod transcript;
