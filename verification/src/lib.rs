//! Core of a burn-and-mint bridge: value is burned on a source ledger, a
//! quorum of attesting validators vouches for the burn, and the verified
//! amount is minted on the destination ledger exactly once per burn.
//!
//! The crate is organised leaf-first:
//! - [`hashes`] names the two digests the protocol is built on;
//! - [`byteseq`] concatenates and compares the byte strings they run over;
//! - [`pubkey`] models validator and user identities as plain 32-byte keys;
//! - [`errors`] is the light client's error taxonomy;
//! - [`config`] holds the verification policy constants;
//! - [`validator_set`] governs the threshold-signed attesting roster;
//! - [`attestation`] verifies trusted-signer attestation batches;
//! - [`stake`] holds the stake-weighted rosters and consensus thresholds;
//! - [`merkle`] recomputes sorted-pair Merkle roots;
//! - [`ed25519_utils`] parses signature-verification instruction data;
//! - [`verification`] verifies native-signature burn proofs end to end;
//! - [`store`] is the create-once keyed record store (the replay guard);
//! - [`mint`] turns a verified burn into exactly one mint plus fees, with
//!   the asset-pinned controllers [`xencat_mint`] and [`dgn_mint`];
//! - [`burn`] records burns on the source side;
//! - [`history`] keeps an audit trail of validator-set updates.

pub mod attestation;
pub mod burn;
pub mod byteseq;
pub mod config;
pub mod dgn_mint;
pub mod ed25519_utils;
pub mod errors;
pub mod hashes;
pub mod history;
pub mod merkle;
pub mod mint;
pub mod pubkey;
pub mod stake;
pub mod store;
pub mod validator_set;
pub mod verification;
pub mod xencat_mint;
