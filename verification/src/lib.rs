//! Attestation of reported game outcomes.
//!
//! The crate checks that a reported game outcome (score, blocks destroyed,
//! win and completion flags, timestamp) is internally consistent and builds
//! a deterministic, independently checkable record of that check: a
//! hash-based commitment binding the record to the input, a reproducible
//! 32-byte seed, and a proof identifier derived from that seed.

pub mod artifacts;
pub mod game;
pub mod hashing;
pub mod json;
pub mod outcome;
pub mod parse;
pub mod text;

pub use game::GameData;
