//! Policy constants for proof verification.

use vstd::prelude::*;

verus! {

/// Target number of validators for proof verification.
pub const TARGET_VALIDATOR_COUNT: usize = 3;

/// Minimum acceptable validator count in a burn proof.
pub const MIN_VALIDATOR_COUNT: usize = 3;

/// Maximum validator count in a burn proof (bounds compute cost).
pub const MAX_VALIDATOR_COUNT: usize = 20;

/// Minimum stake share required for consensus, in basis points, for the
/// sampled-validator design (top validators by stake).
pub const MIN_STAKE_BASIS_POINTS: u64 = 900;

/// Byzantine-fault-tolerant consensus threshold in basis points.
pub const BFT_THRESHOLD_BASIS_POINTS: u64 = 6667;

/// Confirmations a source-chain slot must have before a burn proof is final.
pub const FINALITY_CONFIRMATIONS: u64 = 32;

/// Upper bound on Merkle proof depth.
pub const MAX_MERKLE_DEPTH: usize = 32;

} // verus!
