//! Error taxonomy of the light client.
//!
//! Every failure is surfaced with a specific reason code and is local to the
//! operation that raised it; nothing is partially applied.

use vstd::prelude::*;

verus! {

/// Reasons a light-client operation (attestation verification, burn-proof
/// verification, validator-set rotation) can fail.
#[derive(Clone, Copy, PartialEq, Eq, Structural, Debug)]
pub enum LightClientError {
    /// Ed25519 signature data did not match the expected values.
    InvalidValidatorSignature,
    /// Verified stake is below the consensus threshold.
    InsufficientStake,
    /// Merkle proof malformed or its recomputed root mismatched.
    InvalidMerkleProof,
    /// A claimed signer is not in the current stake-weighted set.
    ValidatorNotFound,
    /// The same validator appeared twice in one batch.
    DuplicateValidator,
    /// A validator-set update did not reach consensus or was malformed.
    InvalidValidatorSetUpdate,
    /// Checked arithmetic failed closed.
    ArithmeticOverflow,
    /// Signature bytes malformed.
    InvalidSignatureFormat,
    /// A burn proof carried no validator votes at all.
    EmptyValidatorVotes,
    /// A burn proof carried more validators than the policy allows.
    TooManyValidators,
    /// A burn proof carried fewer validators than the policy requires.
    InsufficientValidators,
    /// Structurally malformed proof data (zero amount, empty record, ...).
    InvalidProofData,
    /// The Merkle-proven burn record does not match the proof's claims.
    BurnRecordMismatch,
    /// The referenced slot is not yet old enough to be final.
    InsufficientFinality,
    /// The referenced slot is not in the past.
    InvalidSlot,
    /// The proven burn-record bytes could not be deserialised.
    BurnRecordDeserializationFailed,
    /// Signature-verification instruction data malformed.
    InvalidEd25519Instruction,
    /// A verified vote message differs from the expected one.
    InvalidVoteMessage,
    /// A verified message is not the 32 bytes a vote message must be.
    InvalidMessageSize,
    /// Stake accumulation overflowed.
    StakeOverflow,
    /// A claimed signer is not in the current trusted roster.
    UnknownValidator,
    /// Fewer valid attestations than the roster's threshold.
    InsufficientAttestations,
    /// An attestation batch pinned a superseded roster version.
    InvalidValidatorSetVersion,
    /// Fewer approval signatures than the current threshold.
    InsufficientSignatures,
    /// An approver of a rotation is not in the current roster.
    ValidatorNotInSet,
    /// A proposed threshold was zero or above the roster size.
    InvalidThreshold,
    /// The asset identifier is not in the permanent asset namespace.
    InvalidAsset,
    /// Attestation fields do not match the request parameters.
    InvalidAttestation,
    /// A verified burn with this key already exists (replay).
    BurnAlreadyVerified,
}

} // verus!
