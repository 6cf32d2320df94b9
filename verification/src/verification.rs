//! Native-signature burn-proof verification.
//!
//! The higher-assurance design: a burn proof names the block and slot of the
//! burn, carries a Merkle path from the burn record's bytes to the claimed
//! state root, and leans on the platform's Ed25519 program, co-located in
//! the same transaction, for signature cryptography. Verification binds each
//! already-verified signature triple to this proof's vote message, weighs
//! the signers by stake, requires the configured consensus threshold, and
//! recomputes the Merkle root from the proven record bytes, which must spell
//! out exactly the claimed user, amount and nonce.

use vstd::prelude::*;
use vstd::bytes::{spec_u64_from_le_bytes, u64_from_le_bytes};
use crate::byteseq::{bytes_all_zero, bytes_eq, copy_range};
use crate::config::{FINALITY_CONFIRMATIONS, MAX_MERKLE_DEPTH, MAX_VALIDATOR_COUNT,
    MIN_STAKE_BASIS_POINTS, MIN_VALIDATOR_COUNT};
use crate::ed25519_utils::{create_vote_message, extract_ed25519_data,
    le16_at, native_signature_verdict, spec_ed25519_program_id, verify_ed25519_signature_native,
    vote_message_preimage, InstructionData};
use crate::errors::LightClientError;
use crate::hashes::{keccak256, keccak256_of};
use crate::merkle::{compute_merkle_root, merkle_root_from};
use crate::pubkey::{lemma_pubkey_bytes_roundtrip, pubkey_from_bytes,
    spec_pubkey_from_bytes, Pubkey};
use crate::stake::{spec_find_validator, spec_verified_stake, ValidatorConfig, ValidatorInfo,
    ValidatorSet};
use crate::validator_set::dup_at;

verus! {

/// One validator's vote carried alongside a burn proof.
#[derive(Clone, Debug)]
pub struct ValidatorVote {
    /// The voting validator.
    pub validator_identity: Pubkey,
    /// Its stake, informational.
    pub stake: u64,
    /// Its signature over the vote message (64 bytes when well-formed).
    pub signature: Vec<u8>,
}

/// A burn proof: the burn's claims, the block they are anchored in, and the
/// Merkle path from the burn record to the state root.
#[derive(Clone, Debug)]
pub struct BurnProof {
    /// Burn nonce from the source ledger.
    pub burn_nonce: u64,
    /// User who burned.
    pub user: Pubkey,
    /// Amount burned.
    pub amount: u64,
    /// Slot of the block carrying the burn.
    pub slot: u64,
    /// Hash of that block.
    pub block_hash: Vec<u8>,
    /// Claimed state root the Merkle path leads to.
    pub state_root: Vec<u8>,
    /// Sibling hashes from the burn record's leaf upward.
    pub merkle_proof: Vec<Vec<u8>>,
    /// The burn record's bytes, as proven by the Merkle path.
    pub burn_record_data: Vec<u8>,
    /// How many signature-verification instructions to read.
    pub validator_count: u8,
}

impl BurnProof {
    /// Hashes are 32 bytes each.
    pub open spec fn wf(self) -> bool {
        &&& self.block_hash@.len() == 32
        &&& self.state_root@.len() == 32
        &&& forall|i: int|
            0 <= i < self.merkle_proof@.len() ==> (#[trigger] self.merkle_proof@[i])@.len() == 32
    }
}

/// Result of burn-proof verification.
#[derive(Clone, Copy, PartialEq, Eq, Structural, Debug)]
pub struct VerificationResult {
    /// Total stake of the validators that signed.
    pub verified_stake: u64,
    /// How many validators signed.
    pub validator_count: u16,
    /// Whether the stake threshold was met.
    pub consensus_reached: bool,
    /// Whether the Merkle proof held.
    pub merkle_valid: bool,
    /// Overall verdict.
    pub verified: bool,
}

/// A burn record as stored by the source-ledger burn program.
#[derive(Clone, Debug)]
pub struct BurnRecord {
    /// User who burned.
    pub user: Pubkey,
    /// Amount burned.
    pub amount: u64,
    /// The burn's nonce.
    pub nonce: u64,
    /// When the burn happened.
    pub timestamp: u64,
    /// The record's own digest, as the burn program computed it.
    pub record_hash: Vec<u8>,
    /// Platform address derivation byte.
    pub bump: u8,
}

/// Length of a burn record's wire form: user, amount, nonce, timestamp,
/// record hash, bump.
pub const BURN_RECORD_LEN: usize = 89;

/// Deserialise a burn record from its wire form: the user's 32 bytes, three
/// little-endian 64-bit fields, the 32-byte record hash and the bump byte,
/// with nothing left over.
pub fn parse_burn_record(data: &Vec<u8>) -> (r: Result<BurnRecord, LightClientError>)
    ensures
        r is Ok <==> data@.len() == BURN_RECORD_LEN,
        r is Err ==> r == Err::<BurnRecord, LightClientError>(
            LightClientError::BurnRecordDeserializationFailed,
        ),
        r matches Ok(rec) ==> {
            &&& rec.user == spec_pubkey_from_bytes(data@.subrange(0, 32))
            &&& rec.amount == spec_u64_from_le_bytes(data@.subrange(32, 40))
            &&& rec.nonce == spec_u64_from_le_bytes(data@.subrange(40, 48))
            &&& rec.timestamp == spec_u64_from_le_bytes(data@.subrange(48, 56))
            &&& rec.record_hash@ == data@.subrange(56, 88)
            &&& rec.bump == data@[88]
        },
{
    if data.len() != BURN_RECORD_LEN {
        return Err(LightClientError::BurnRecordDeserializationFailed);
    }
    let user_bytes = copy_range(data, 0, 32);
    let user = pubkey_from_bytes(&user_bytes);
    proof {
        lemma_pubkey_bytes_roundtrip(data@.subrange(0, 32));
    }
    let amount_bytes = copy_range(data, 32, 40);
    let nonce_bytes = copy_range(data, 40, 48);
    let timestamp_bytes = copy_range(data, 48, 56);
    let record_hash = copy_range(data, 56, 88);
    let bump = data[88];
    Ok(
        BurnRecord {
            user,
            amount: u64_from_le_bytes(amount_bytes.as_slice()),
            nonce: u64_from_le_bytes(nonce_bytes.as_slice()),
            timestamp: u64_from_le_bytes(timestamp_bytes.as_slice()),
            record_hash,
            bump,
        },
    )
}

/// The exact verdict of holding proven burn-record bytes against the
/// proof's claims: the bytes must parse and must spell out exactly the
/// claimed user, amount and nonce.
pub open spec fn burn_record_verdict(d: Seq<u8>, user: Pubkey, amount: u64, nonce: u64) -> Result<
    (),
    LightClientError,
> {
    if d.len() != BURN_RECORD_LEN {
        Err(LightClientError::BurnRecordDeserializationFailed)
    } else if spec_pubkey_from_bytes(d.subrange(0, 32)) != user {
        Err(LightClientError::BurnRecordMismatch)
    } else if spec_u64_from_le_bytes(d.subrange(32, 40)) != amount {
        Err(LightClientError::BurnRecordMismatch)
    } else if spec_u64_from_le_bytes(d.subrange(40, 48)) != nonce {
        Err(LightClientError::BurnRecordMismatch)
    } else {
        Ok(())
    }
}

/// Require that the Merkle-proven burn-record bytes spell out exactly the
/// burn this proof claims; a Merkle proof alone only shows that some bytes
/// are in the state tree.
pub fn verify_burn_record_data(proof: &BurnProof) -> (r: Result<(), LightClientError>)
    ensures
        r == burn_record_verdict(proof.burn_record_data@, proof.user, proof.amount,
            proof.burn_nonce),
{
    let record = match parse_burn_record(&proof.burn_record_data) {
        Ok(rec) => rec,
        Err(e) => {
            return Err(e);
        },
    };
    if !(record.user == proof.user) {
        return Err(LightClientError::BurnRecordMismatch);
    }
    if record.amount != proof.amount {
        return Err(LightClientError::BurnRecordMismatch);
    }
    if record.nonce != proof.burn_nonce {
        return Err(LightClientError::BurnRecordMismatch);
    }
    Ok(())
}

/// The exact verdict of Merkle verification: a bounded proof depth, a
/// recomputed root equal to the claimed state root, and record bytes that
/// match the proof's claims.
pub open spec fn merkle_record_verdict(proof: BurnProof) -> Result<(), LightClientError> {
    if proof.merkle_proof@.len() > MAX_MERKLE_DEPTH as int {
        Err(LightClientError::InvalidMerkleProof)
    } else if merkle_root_from(keccak256_of(proof.burn_record_data@), proof.merkle_proof.deep_view())
        != proof.state_root@ {
        Err(LightClientError::InvalidMerkleProof)
    } else {
        burn_record_verdict(proof.burn_record_data@, proof.user, proof.amount, proof.burn_nonce)
    }
}

/// Recompute the Merkle root from the burn record's leaf hash upward and
/// require it to equal the claimed state root, then hold the proven bytes
/// against the proof's claims.
pub fn verify_merkle_proof_internal(proof: &BurnProof) -> (r: Result<bool, LightClientError>)
    requires
        proof.wf(),
    ensures
        r matches Ok(b) ==> b && merkle_record_verdict(*proof) is Ok,
        r matches Err(e) ==> merkle_record_verdict(*proof) == Err::<(), LightClientError>(e),
        r is Ok <==> merkle_record_verdict(*proof) is Ok,
{
    if proof.merkle_proof.len() > MAX_MERKLE_DEPTH {
        return Err(LightClientError::InvalidMerkleProof);
    }
    let leaf_hash = keccak256(proof.burn_record_data.as_slice());
    let computed_root = compute_merkle_root(&leaf_hash, &proof.merkle_proof);
    if !bytes_eq(&computed_root, &proof.state_root) {
        return Err(LightClientError::InvalidMerkleProof);
    }
    match verify_burn_record_data(proof) {
        Ok(()) => Ok(true),
        Err(e) => Err(e),
    }
}

/// The exact verdict of the structural checks every full proof must pass
/// before any cryptographic work: a usable vote count, a non-zero amount,
/// non-empty record bytes, a non-empty Merkle path and a non-zero state
/// root.
pub open spec fn structure_verdict(proof: BurnProof, votes_len: int) -> Result<
    (),
    LightClientError,
> {
    if votes_len == 0 {
        Err(LightClientError::EmptyValidatorVotes)
    } else if votes_len < MIN_VALIDATOR_COUNT as int {
        Err(LightClientError::InsufficientValidators)
    } else if votes_len > MAX_VALIDATOR_COUNT as int {
        Err(LightClientError::TooManyValidators)
    } else if proof.amount == 0 {
        Err(LightClientError::InvalidProofData)
    } else if proof.burn_record_data@.len() == 0 {
        Err(LightClientError::InvalidProofData)
    } else if proof.merkle_proof@.len() == 0 {
        Err(LightClientError::InvalidMerkleProof)
    } else if forall|j: int| 0 <= j < proof.state_root@.len() ==> proof.state_root@[j] == 0 {
        Err(LightClientError::InvalidMerkleProof)
    } else {
        Ok(())
    }
}

/// Reject malformed proofs before any cryptographic work.
pub fn validate_proof_structure(proof: &BurnProof, votes: &Vec<ValidatorVote>) -> (r: Result<
    (),
    LightClientError,
>)
    ensures
        r == structure_verdict(*proof, votes@.len() as int),
{
    if votes.len() == 0 {
        return Err(LightClientError::EmptyValidatorVotes);
    }
    if votes.len() < MIN_VALIDATOR_COUNT {
        return Err(LightClientError::InsufficientValidators);
    }
    if votes.len() > MAX_VALIDATOR_COUNT {
        return Err(LightClientError::TooManyValidators);
    }
    if proof.amount == 0 {
        return Err(LightClientError::InvalidProofData);
    }
    if proof.burn_record_data.len() == 0 {
        return Err(LightClientError::InvalidProofData);
    }
    if proof.merkle_proof.len() == 0 {
        return Err(LightClientError::InvalidMerkleProof);
    }
    if bytes_all_zero(&proof.state_root) {
        return Err(LightClientError::InvalidMerkleProof);
    }
    Ok(())
}

/// The voting validators' identities, in vote order.
pub open spec fn vote_pubkeys(votes: Seq<ValidatorVote>) -> Seq<Pubkey> {
    Seq::new(votes.len(), |i: int| votes[i].validator_identity)
}

/// The exact verdict of checking votes `i` onward with `acc` stake already
/// verified: each vote must come from a distinct, known validator and be
/// bound to an Ed25519-program instruction carrying exactly its triple;
/// stake accumulation fails closed.
pub open spec fn votes_verdict(
    votes: Seq<ValidatorVote>,
    roster: Seq<ValidatorInfo>,
    ixs: Seq<InstructionData>,
    offset: int,
    message: Seq<u8>,
    i: int,
    acc: int,
) -> Result<int, LightClientError>
    decreases votes.len() - i,
{
    if i < 0 || i >= votes.len() {
        Ok(acc)
    } else if dup_at(vote_pubkeys(votes), i) {
        Err(LightClientError::DuplicateValidator)
    } else {
        match spec_find_validator(roster, votes[i].validator_identity) {
            None => Err(LightClientError::ValidatorNotFound),
            Some(v) => {
                if offset + i >= ixs.len() {
                    Err(LightClientError::InvalidEd25519Instruction)
                } else {
                    match native_signature_verdict(
                        ixs[offset + i],
                        votes[i].signature@,
                        message,
                        votes[i].validator_identity,
                    ) {
                        Err(e) => Err(e),
                        Ok(()) => {
                            if acc + v.stake > u64::MAX {
                                Err(LightClientError::ArithmeticOverflow)
                            } else {
                                votes_verdict(
                                    votes,
                                    roster,
                                    ixs,
                                    offset,
                                    message,
                                    i + 1,
                                    acc + v.stake,
                                )
                            }
                        },
                    }
                }
            },
        }
    }
}

/// Check every vote against the roster and its Ed25519-program instruction,
/// accumulating verified stake.
fn verify_votes_core(
    votes: &Vec<ValidatorVote>,
    roster: &Vec<ValidatorInfo>,
    instructions: &Vec<InstructionData>,
    ed25519_ix_offset: u16,
    message: &Vec<u8>,
) -> (r: Result<u64, LightClientError>)
    ensures
        r matches Ok(st) ==> votes_verdict(
            votes@,
            roster@,
            instructions@,
            ed25519_ix_offset as int,
            message@,
            0,
            0,
        ) == Ok::<int, LightClientError>(st as int),
        r matches Err(e) ==> votes_verdict(
            votes@,
            roster@,
            instructions@,
            ed25519_ix_offset as int,
            message@,
            0,
            0,
        ) == Err::<int, LightClientError>(e),
{
    let ghost s = votes@;
    let ghost offset = ed25519_ix_offset as int;
    let mut verified_stake: u64 = 0;
    let n = votes.len();
    for i in 0..n
        invariant
            n == s.len(),
            s == votes@,
            votes_verdict(s, roster@, instructions@, offset, message@, 0, 0) == votes_verdict(
                s,
                roster@,
                instructions@,
                offset,
                message@,
                i as int,
                verified_stake as int,
            ),
            offset == ed25519_ix_offset as int,
    {
        proof {
            assert(forall|k: int| 0 <= k < n ==> vote_pubkeys(s)[k] == s[k].validator_identity);
        }
        let mut is_dup = false;
        for j in 0..i
            invariant
                0 <= i < n == s.len(),
                s == votes@,
                forall|k: int| 0 <= k < n ==> vote_pubkeys(s)[k] == s[k].validator_identity,
                is_dup <==> exists|k: int|
                    0 <= k < j && vote_pubkeys(s)[k] == vote_pubkeys(s)[i as int],
        {
            if votes[j].validator_identity == votes[i].validator_identity {
                is_dup = true;
                assert(vote_pubkeys(s)[j as int] == vote_pubkeys(s)[i as int]);
            }
        }
        proof {
            assert(is_dup <==> dup_at(vote_pubkeys(s), i as int));
        }
        if is_dup {
            return Err(LightClientError::DuplicateValidator);
        }
        let validator_stake: u64 = match crate::stake::find_in_roster(
            roster,
            &votes[i].validator_identity,
        ) {
            Some(v) => v.stake,
            None => {
                return Err(LightClientError::ValidatorNotFound);
            },
        };
        let ix_count = instructions.len();
        let ix_index = match (ed25519_ix_offset as usize).checked_add(i) {
            Some(x) => x,
            None => {
                proof {
                    assert(offset + i as int > ix_count as int);
                }
                return Err(LightClientError::InvalidEd25519Instruction);
            },
        };
        if ix_index >= ix_count {
            return Err(LightClientError::InvalidEd25519Instruction);
        }
        match verify_ed25519_signature_native(
            &instructions[ix_index],
            &votes[i].signature,
            message,
            &votes[i].validator_identity,
        ) {
            Ok(()) => (),
            Err(e) => {
                return Err(e);
            },
        }
        verified_stake = match verified_stake.checked_add(validator_stake) {
            Some(st) => st,
            None => {
                return Err(LightClientError::ArithmeticOverflow);
            },
        };
    }
    Ok(verified_stake)
}

/// Verify each vote's bound signature against the stake-weighted set and
/// return the verified stake and signer count.
pub fn verify_validator_signatures(
    proof: &BurnProof,
    votes: &Vec<ValidatorVote>,
    validator_set: &ValidatorSet,
    instructions: &Vec<InstructionData>,
    ed25519_ix_offset: u16,
) -> (r: Result<(u64, u16), LightClientError>)
    requires
        proof.wf(),
        votes@.len() <= u16::MAX,
    ensures
        r matches Ok((st, c)) ==> votes_verdict(
            votes@,
            validator_set.validators@,
            instructions@,
            ed25519_ix_offset as int,
            keccak256_of(vote_message_preimage(proof.block_hash@, proof.slot)),
            0,
            0,
        ) == Ok::<int, LightClientError>(st as int) && c == votes@.len(),
        r matches Err(e) ==> votes_verdict(
            votes@,
            validator_set.validators@,
            instructions@,
            ed25519_ix_offset as int,
            keccak256_of(vote_message_preimage(proof.block_hash@, proof.slot)),
            0,
            0,
        ) == Err::<int, LightClientError>(e),
{
    let vote_message = create_vote_message(&proof.block_hash, proof.slot);
    let verified_stake = match verify_votes_core(
        votes,
        &validator_set.validators,
        instructions,
        ed25519_ix_offset,
        &vote_message,
    ) {
        Ok(st) => st,
        Err(e) => {
            return Err(e);
        },
    };
    Ok((verified_stake, votes.len() as u16))
}

/// Verify each vote's bound signature against the primary-plus-fallback
/// configuration and return the verified stake and signer count.
pub fn verify_validator_signatures_config(
    proof: &BurnProof,
    votes: &Vec<ValidatorVote>,
    validator_config: &ValidatorConfig,
    instructions: &Vec<InstructionData>,
    ed25519_ix_offset: u16,
) -> (r: Result<(u64, u16), LightClientError>)
    requires
        proof.wf(),
        votes@.len() <= u16::MAX,
    ensures
        r matches Ok((st, c)) ==> votes_verdict(
            votes@,
            validator_config.spec_all_validators(),
            instructions@,
            ed25519_ix_offset as int,
            keccak256_of(vote_message_preimage(proof.block_hash@, proof.slot)),
            0,
            0,
        ) == Ok::<int, LightClientError>(st as int) && c == votes@.len(),
        r matches Err(e) ==> votes_verdict(
            votes@,
            validator_config.spec_all_validators(),
            instructions@,
            ed25519_ix_offset as int,
            keccak256_of(vote_message_preimage(proof.block_hash@, proof.slot)),
            0,
            0,
        ) == Err::<int, LightClientError>(e),
{
    let vote_message = create_vote_message(&proof.block_hash, proof.slot);
    let all = validator_config.all_validators();
    let verified_stake = match verify_votes_core(
        votes,
        &all,
        instructions,
        ed25519_ix_offset,
        &vote_message,
    ) {
        Ok(st) => st,
        Err(e) => {
            return Err(e);
        },
    };
    Ok((verified_stake, votes.len() as u16))
}

/// The exact verdict of full burn-proof verification against the
/// stake-weighted set, with the basis-point minimum threshold.
pub open spec fn burn_proof_legacy_verdict(
    proof: BurnProof,
    votes: Seq<ValidatorVote>,
    roster: Seq<ValidatorInfo>,
    total_stake: u64,
    ixs: Seq<InstructionData>,
    offset: int,
) -> Result<VerificationResult, LightClientError> {
    match structure_verdict(proof, votes.len() as int) {
        Err(e) => Err(e),
        Ok(()) => match votes_verdict(
            votes,
            roster,
            ixs,
            offset,
            keccak256_of(vote_message_preimage(proof.block_hash@, proof.slot)),
            0,
            0,
        ) {
            Err(e) => Err(e),
            Ok(st) => {
                if st < (total_stake as int) * (MIN_STAKE_BASIS_POINTS as int) / 10000 {
                    Err(LightClientError::InsufficientStake)
                } else {
                    match merkle_record_verdict(proof) {
                        Err(e) => Err(e),
                        Ok(()) => Ok(
                            VerificationResult {
                                verified_stake: st as u64,
                                validator_count: votes.len() as u16,
                                consensus_reached: true,
                                merkle_valid: true,
                                verified: true,
                            },
                        ),
                    }
                }
            },
        },
    }
}

/// Verify a complete burn proof against the stake-weighted validator set:
/// structure, bound signatures, stake threshold, Merkle path and record
/// bytes.
pub fn verify_burn_proof_legacy(
    proof: &BurnProof,
    votes: &Vec<ValidatorVote>,
    validator_set: &ValidatorSet,
    total_stake: u64,
    instructions: &Vec<InstructionData>,
    ed25519_ix_offset: u16,
) -> (r: Result<VerificationResult, LightClientError>)
    requires
        proof.wf(),
        votes@.len() <= u16::MAX,
    ensures
        r == burn_proof_legacy_verdict(
            *proof,
            votes@,
            validator_set.validators@,
            total_stake,
            instructions@,
            ed25519_ix_offset as int,
        ),
{
    match validate_proof_structure(proof, votes) {
        Ok(()) => (),
        Err(e) => {
            return Err(e);
        },
    }
    let (verified_stake, validator_count) = match verify_validator_signatures(
        proof,
        votes,
        validator_set,
        instructions,
        ed25519_ix_offset,
    ) {
        Ok(v) => v,
        Err(e) => {
            return Err(e);
        },
    };
    let min_stake_threshold = match crate::stake::calculate_stake_threshold(
        total_stake,
        MIN_STAKE_BASIS_POINTS,
    ) {
        Ok(t) => t,
        Err(e) => {
            return Err(e);
        },
    };
    if verified_stake < min_stake_threshold {
        return Err(LightClientError::InsufficientStake);
    }
    let merkle_valid = match verify_merkle_proof_internal(proof) {
        Ok(b) => b,
        Err(e) => {
            return Err(e);
        },
    };
    Ok(
        VerificationResult {
            verified_stake,
            validator_count,
            consensus_reached: true,
            merkle_valid,
            verified: true,
        },
    )
}

/// The exact verdict of full burn-proof verification against the
/// primary-plus-fallback configuration: as the stake-weighted verdict, but
/// consensus is measured by looking the voters' identities up in the
/// configuration against its tracked total stake.
pub open spec fn burn_proof_config_verdict(
    proof: BurnProof,
    votes: Seq<ValidatorVote>,
    roster: Seq<ValidatorInfo>,
    total_tracked_stake: u64,
    ixs: Seq<InstructionData>,
    offset: int,
) -> Result<VerificationResult, LightClientError> {
    match structure_verdict(proof, votes.len() as int) {
        Err(e) => Err(e),
        Ok(()) => match votes_verdict(
            votes,
            roster,
            ixs,
            offset,
            keccak256_of(vote_message_preimage(proof.block_hash@, proof.slot)),
            0,
            0,
        ) {
            Err(e) => Err(e),
            Ok(st) => {
                let vs = spec_verified_stake(roster, vote_pubkeys(votes));
                if vs > u64::MAX {
                    Err(LightClientError::ArithmeticOverflow)
                } else if vs < (total_tracked_stake as int) * (MIN_STAKE_BASIS_POINTS as int)
                    / 10000 {
                    Err(LightClientError::InsufficientStake)
                } else {
                    match merkle_record_verdict(proof) {
                        Err(e) => Err(e),
                        Ok(()) => Ok(
                            VerificationResult {
                                verified_stake: st as u64,
                                validator_count: votes.len() as u16,
                                consensus_reached: true,
                                merkle_valid: true,
                                verified: true,
                            },
                        ),
                    }
                }
            },
        },
    }
}

/// Verify a complete burn proof against the primary-plus-fallback validator
/// configuration.
pub fn verify_burn_proof(
    proof: &BurnProof,
    votes: &Vec<ValidatorVote>,
    validator_config: &ValidatorConfig,
    instructions: &Vec<InstructionData>,
    ed25519_ix_offset: u16,
) -> (r: Result<VerificationResult, LightClientError>)
    requires
        proof.wf(),
        votes@.len() <= u16::MAX,
    ensures
        r == burn_proof_config_verdict(
            *proof,
            votes@,
            validator_config.spec_all_validators(),
            validator_config.total_tracked_stake,
            instructions@,
            ed25519_ix_offset as int,
        ),
{
    match validate_proof_structure(proof, votes) {
        Ok(()) => (),
        Err(e) => {
            return Err(e);
        },
    }
    let (verified_stake, validator_count) = match verify_validator_signatures_config(
        proof,
        votes,
        validator_config,
        instructions,
        ed25519_ix_offset,
    ) {
        Ok(v) => v,
        Err(e) => {
            return Err(e);
        },
    };
    let mut identities: Vec<Pubkey> = Vec::new();
    let n = votes.len();
    for i in 0..n
        invariant
            n == votes@.len(),
            identities@.len() == i,
            forall|j: int| 0 <= j < i ==> identities@[j] == vote_pubkeys(votes@)[j],
    {
        identities.push(votes[i].validator_identity);
    }
    proof {
        assert(identities@ =~= vote_pubkeys(votes@));
    }
    let (_, consensus_reached) = match validator_config.verify_stake_threshold(
        &identities,
        validator_config.total_tracked_stake,
    ) {
        Ok(v) => v,
        Err(e) => {
            return Err(e);
        },
    };
    if !consensus_reached {
        return Err(LightClientError::InsufficientStake);
    }
    let merkle_valid = match verify_merkle_proof_internal(proof) {
        Ok(b) => b,
        Err(e) => {
            return Err(e);
        },
    };
    Ok(
        VerificationResult {
            verified_stake,
            validator_count,
            consensus_reached: true,
            merkle_valid,
            verified: true,
        },
    )
}

/// The public key an Ed25519-program instruction's data carries.
pub open spec fn extracted_pk(ix: InstructionData) -> Pubkey {
    spec_pubkey_from_bytes(
        ix.data@.subrange(le16_at(ix.data@, 6), le16_at(ix.data@, 6) + 32),
    )
}

/// The message an Ed25519-program instruction's data carries.
pub open spec fn extracted_msg(ix: InstructionData) -> Seq<u8> {
    ix.data@.subrange(le16_at(ix.data@, 10), le16_at(ix.data@, 10) + 32)
}

/// The signers' identities as extracted from `n` consecutive
/// Ed25519-program instructions starting at `offset`.
pub open spec fn extracted_ids(ixs: Seq<InstructionData>, offset: int, n: int) -> Seq<Pubkey> {
    Seq::new(n as nat, |j: int| extracted_pk(ixs[offset + j]))
}

/// The exact verdict of reading signer `i` onward out of the transaction's
/// instructions with `acc` stake already verified: each instruction must
/// invoke the Ed25519 program with well-formed data, carry this proof's
/// vote message, and name a distinct, known validator.
pub open spec fn minimal_votes_verdict(
    ixs: Seq<InstructionData>,
    offset: int,
    n: int,
    roster: Seq<ValidatorInfo>,
    expected: Seq<u8>,
    i: int,
    acc: int,
) -> Result<int, LightClientError>
    decreases n - i,
{
    if i < 0 || i >= n {
        Ok(acc)
    } else if offset + i >= ixs.len() {
        Err(LightClientError::InvalidEd25519Instruction)
    } else {
        let ix = ixs[offset + i];
        let d = ix.data@;
        if ix.program_id != spec_ed25519_program_id() {
            Err(LightClientError::InvalidEd25519Instruction)
        } else if d.len() < 16 || le16_at(d, 2) + 64 > d.len() || le16_at(d, 6) + 32 > d.len()
            || le16_at(d, 10) + le16_at(d, 12) > d.len() {
            Err(LightClientError::InvalidEd25519Instruction)
        } else if le16_at(d, 12) != 32 {
            Err(LightClientError::InvalidMessageSize)
        } else if extracted_msg(ix) != expected {
            Err(LightClientError::InvalidVoteMessage)
        } else if exists|j: int|
            0 <= j < i && extracted_pk(#[trigger] ixs[offset + j]) == extracted_pk(ix) {
            Err(LightClientError::DuplicateValidator)
        } else {
            match spec_find_validator(roster, extracted_pk(ix)) {
                None => Err(LightClientError::UnknownValidator),
                Some(v) => {
                    if acc + v.stake > u64::MAX {
                        Err(LightClientError::StakeOverflow)
                    } else {
                        minimal_votes_verdict(ixs, offset, n, roster, expected, i + 1, acc + v.stake)
                    }
                },
            }
        }
    }
}

/// The exact verdict of minimal burn-proof verification: structural bounds
/// on the signer count, finality of the referenced slot, signers extracted
/// from the co-located Ed25519-program instructions, a stake threshold over
/// the tracked total, and the Merkle path with its record bytes.
pub open spec fn burn_proof_minimal_verdict(
    proof: BurnProof,
    roster: Seq<ValidatorInfo>,
    total_tracked_stake: u64,
    ixs: Seq<InstructionData>,
    offset: int,
    current_slot: u64,
) -> Result<(), LightClientError> {
    if (proof.validator_count as int) < MIN_VALIDATOR_COUNT as int {
        Err(LightClientError::InsufficientValidators)
    } else if proof.validator_count as int > MAX_VALIDATOR_COUNT as int {
        Err(LightClientError::TooManyValidators)
    } else if proof.slot >= current_slot {
        Err(LightClientError::InvalidSlot)
    } else if current_slot - proof.slot < FINALITY_CONFIRMATIONS {
        Err(LightClientError::InsufficientFinality)
    } else {
        match minimal_votes_verdict(
            ixs,
            offset,
            proof.validator_count as int,
            roster,
            keccak256_of(vote_message_preimage(proof.block_hash@, proof.slot)),
            0,
            0,
        ) {
            Err(e) => Err(e),
            Ok(_) => {
                let vs = spec_verified_stake(
                    roster,
                    extracted_ids(ixs, offset, proof.validator_count as int),
                );
                if vs > u64::MAX {
                    Err(LightClientError::ArithmeticOverflow)
                } else if vs < (total_tracked_stake as int) * (MIN_STAKE_BASIS_POINTS as int)
                    / 10000 {
                    Err(LightClientError::InsufficientStake)
                } else {
                    merkle_record_verdict(proof)
                }
            },
        }
    }
}

/// Verify a burn proof whose signer identities live in the co-located
/// Ed25519-program instructions rather than in the proof itself.
///
/// The platform has already verified each instruction's signature
/// cryptographically; this function binds each instruction to this proof's
/// vote message, enforces finality of the referenced slot, weighs the
/// extracted signers' stake against the tracked total, and requires the
/// Merkle-proven record bytes to spell out the claimed burn.
pub fn verify_burn_proof_minimal(
    proof: &BurnProof,
    validator_config: &ValidatorConfig,
    instructions: &Vec<InstructionData>,
    ed25519_ix_offset: u16,
    current_slot: u64,
) -> (r: Result<(), LightClientError>)
    requires
        proof.wf(),
    ensures
        r == burn_proof_minimal_verdict(
            *proof,
            validator_config.spec_all_validators(),
            validator_config.total_tracked_stake,
            instructions@,
            ed25519_ix_offset as int,
            current_slot,
        ),
{
    let ghost roster = validator_config.spec_all_validators();
    let ghost offset = ed25519_ix_offset as int;
    if (proof.validator_count as usize) < MIN_VALIDATOR_COUNT {
        return Err(LightClientError::InsufficientValidators);
    }
    if proof.validator_count as usize > MAX_VALIDATOR_COUNT {
        return Err(LightClientError::TooManyValidators);
    }
    if proof.slot >= current_slot {
        return Err(LightClientError::InvalidSlot);
    }
    if current_slot - proof.slot < FINALITY_CONFIRMATIONS {
        return Err(LightClientError::InsufficientFinality);
    }
    let expected_message = create_vote_message(&proof.block_hash, proof.slot);
    let all = validator_config.all_validators();
    let mut total_stake: u64 = 0;
    let mut validator_identities: Vec<Pubkey> = Vec::new();
    let n = proof.validator_count as usize;
    for i in 0..n
        invariant
            n == proof.validator_count as int,
            roster == validator_config.spec_all_validators(),
            offset == ed25519_ix_offset as int,
            all@ == roster,
            expected_message@ == keccak256_of(
                vote_message_preimage(proof.block_hash@, proof.slot),
            ),
            validator_identities@.len() == i,
            forall|j: int|
                0 <= j < i ==> validator_identities@[j] == extracted_pk(
                    #[trigger] instructions@[offset + j],
                ),
            minimal_votes_verdict(instructions@, offset, n as int, roster, expected_message@, 0, 0)
                == minimal_votes_verdict(
                instructions@,
                offset,
                n as int,
                roster,
                expected_message@,
                i as int,
                total_stake as int,
            ),
            proof.validator_count as int >= MIN_VALIDATOR_COUNT as int,
            proof.validator_count as int <= MAX_VALIDATOR_COUNT as int,
            proof.slot < current_slot,
            current_slot - proof.slot >= FINALITY_CONFIRMATIONS,
    {
        let ix_count = instructions.len();
        let ix_index = match (ed25519_ix_offset as usize).checked_add(i) {
            Some(x) => x,
            None => {
                proof {
                    assert(offset + i as int > ix_count as int);
                }
                return Err(LightClientError::InvalidEd25519Instruction);
            },
        };
        if ix_index >= ix_count {
            return Err(LightClientError::InvalidEd25519Instruction);
        }
        let expected_program = crate::ed25519_utils::ed25519_program_id();
        if !(instructions[ix_index].program_id == expected_program) {
            return Err(LightClientError::InvalidEd25519Instruction);
        }
        let (validator_pubkey, _signature, vote_message) = match extract_ed25519_data(
            &instructions[ix_index].data,
        ) {
            Ok(t) => t,
            Err(e) => {
                return Err(e);
            },
        };
        proof {
            lemma_pubkey_bytes_roundtrip(
                instructions@[ix_index as int].data@.subrange(
                    le16_at(instructions@[ix_index as int].data@, 6),
                    le16_at(instructions@[ix_index as int].data@, 6) + 32,
                ),
            );
            assert(validator_pubkey == extracted_pk(instructions@[ix_index as int]));
        }
        if !bytes_eq(&vote_message, &expected_message) {
            return Err(LightClientError::InvalidVoteMessage);
        }
        if crate::validator_set::roster_contains(&validator_identities, &validator_pubkey) {
            proof {
                let j = choose|j: int|
                    0 <= j < validator_identities@.len() && validator_identities@[j]
                        == validator_pubkey;
                assert(extracted_pk(instructions@[offset + j]) == extracted_pk(
                    instructions@[offset + i as int],
                ));
            }
            return Err(LightClientError::DuplicateValidator);
        }
        let validator_stake: u64 = match crate::stake::find_in_roster(&all, &validator_pubkey) {
            Some(v) => v.stake,
            None => {
                return Err(LightClientError::UnknownValidator);
            },
        };
        total_stake = match total_stake.checked_add(validator_stake) {
            Some(st) => st,
            None => {
                return Err(LightClientError::StakeOverflow);
            },
        };
        validator_identities.push(validator_pubkey);
    }
    proof {
        assert(validator_identities@ =~= extracted_ids(instructions@, offset, n as int));
    }
    let (_, consensus_reached) = match validator_config.verify_stake_threshold(
        &validator_identities,
        validator_config.total_tracked_stake,
    ) {
        Ok(v) => v,
        Err(e) => {
            return Err(e);
        },
    };
    if !consensus_reached {
        return Err(LightClientError::InsufficientStake);
    }
    match verify_merkle_proof_internal(proof) {
        Ok(_) => Ok(()),
        Err(e) => Err(e),
    }
}

} // verus!
