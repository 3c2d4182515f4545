//! Parallel search for Ed25519 SSH keys whose public identity or fingerprint
//! matches a user pattern.
//!
//! The library holds the logic of the search: the smoothed throughput
//! estimate, the decisions of a search worker and of the coordinator that
//! monitors it, the shared progress state and its model, the derivation of
//! the key representations, and pattern matching.
use vstd::prelude::*;

pub mod keys;
pub mod monitor;
pub mod pattern;
pub mod rate;
pub mod search;
pub mod shared;
pub mod system;
pub mod worker;

verus! {

} // verus!
