use burn_bridge::burn::burn_xencat;
use burn_bridge::burn::ErrorCode;
use burn_bridge::burn::GlobalState;
use burn_bridge::byteseq::append_bytes;
use burn_bridge::ed25519_utils::ed25519_program_id;
use burn_bridge::ed25519_utils::extract_ed25519_data;
use burn_bridge::ed25519_utils::create_vote_message;
use burn_bridge::ed25519_utils::InstructionData;
use burn_bridge::errors::LightClientError;
use burn_bridge::hashes::keccak256;
use burn_bridge::history::ValidatorSetHistory;
use burn_bridge::history::ValidatorSetUpdateRecord;
use burn_bridge::merkle::hash_sorted_pair;
use burn_bridge::pubkey::Pubkey;
use burn_bridge::stake::calculate_stake_threshold;
use burn_bridge::stake::ValidatorConfig;
use burn_bridge::stake::ValidatorInfo;
use burn_bridge::stake::ValidatorSet;
use burn_bridge::verification::parse_burn_record;
use burn_bridge::verification::verify_burn_proof_legacy;
use burn_bridge::verification::verify_burn_proof_minimal;
use burn_bridge::verification::BurnProof;
use burn_bridge::verification::ValidatorVote;
use burn_bridge::verification::VerificationResult;

fn pk(n: u64) -> Pubkey {
    Pubkey { w0: n, w1: 5, w2: 0, w3: 0 }
}

fn put_le16(d: &mut Vec<u8>, pos: usize, value: u16) {
    d[pos] = (value & 0xff) as u8;
    d[pos + 1] = (value >> 8) as u8;
}

/// Instruction data in the extraction layout: offsets at header positions
/// 2 (signature), 6 (public key), 10 (message offset) and 12 (message
/// size).
fn extract_layout_data(identity: &Pubkey, signature: &Vec<u8>, message: &Vec<u8>) -> Vec<u8> {
    let mut d = vec![0u8; 16];
    d[0] = 1;
    put_le16(&mut d, 2, 16);
    put_le16(&mut d, 6, 80);
    put_le16(&mut d, 10, 112);
    put_le16(&mut d, 12, 32);
    append_bytes(&mut d, signature);
    let id_bytes = identity.to_bytes();
    append_bytes(&mut d, &id_bytes);
    append_bytes(&mut d, message);
    d
}

/// Instruction data in the single-signature binding layout: count byte,
/// then offsets at positions 1, 5, 9 and 11.
fn binding_layout_data(identity: &Pubkey, signature: &Vec<u8>, message: &Vec<u8>) -> Vec<u8> {
    let mut d = vec![0u8; 16];
    d[0] = 1;
    put_le16(&mut d, 1, 16);
    put_le16(&mut d, 5, 80);
    put_le16(&mut d, 9, 112);
    put_le16(&mut d, 11, 32);
    append_bytes(&mut d, signature);
    let id_bytes = identity.to_bytes();
    append_bytes(&mut d, &id_bytes);
    append_bytes(&mut d, message);
    d
}

fn burn_record_bytes(user: &Pubkey, amount: u64, nonce: u64, timestamp: u64) -> Vec<u8> {
    let mut d = user.to_bytes();
    d.extend_from_slice(&amount.to_le_bytes());
    d.extend_from_slice(&nonce.to_le_bytes());
    d.extend_from_slice(&timestamp.to_le_bytes());
    d.extend_from_slice(&[0u8; 32]);
    d.push(0);
    d
}

fn seven_validator_config() -> ValidatorConfig {
    ValidatorConfig {
        current_epoch: 1,
        last_update: 0,
        primary_validators: vec![
            ValidatorInfo { identity: pk(1), stake: 100 },
            ValidatorInfo { identity: pk(2), stake: 100 },
            ValidatorInfo { identity: pk(3), stake: 100 },
        ],
        fallback_validators: vec![
            ValidatorInfo { identity: pk(4), stake: 10 },
            ValidatorInfo { identity: pk(5), stake: 10 },
            ValidatorInfo { identity: pk(6), stake: 10 },
            ValidatorInfo { identity: pk(7), stake: 10 },
        ],
        total_tracked_stake: 340,
    }
}

#[test]
fn test_consensus_threshold() {
    // Test exact two-thirds calculation
    assert_eq!(ValidatorSet::consensus_threshold(300).unwrap(), 200);
    assert_eq!(ValidatorSet::consensus_threshold(1000).unwrap(), 667);
    assert_eq!(ValidatorSet::consensus_threshold(100).unwrap(), 67);

    // Test rounding up
    assert_eq!(ValidatorSet::consensus_threshold(10).unwrap(), 7);
}

#[test]
fn test_verification_result() {
    let result = VerificationResult {
        verified_stake: 700,
        validator_count: 10,
        consensus_reached: true,
        merkle_valid: true,
        verified: true,
    };

    assert!(result.verified);
    assert!(result.consensus_reached);
    assert!(result.merkle_valid);
}

#[test]
fn test_history_ring_buffer() {
    let mut history = ValidatorSetHistory {
        updates: Vec::new(),
        current_index: 0,
        total_updates: 0,
    };

    // Add first update
    let record = ValidatorSetUpdateRecord {
        update_epoch: 1,
        slot: 100,
        timestamp: 1234567890,
        validator_set_hash: vec![0u8; 32],
        total_stake: 1000,
        validator_count: 10,
        approver_count: 7,
        approver_stake: 700,
    };

    history.add_update(record.clone());
    assert_eq!(history.total_updates, 1);
    assert_eq!(history.get_latest().unwrap().update_epoch, 1);
}

#[test]
fn history_lookup_by_epoch() {
    let mut history = ValidatorSetHistory::new();
    for epoch in 1..4u64 {
        history.add_update(ValidatorSetUpdateRecord {
            update_epoch: epoch,
            slot: epoch * 10,
            timestamp: 0,
            validator_set_hash: vec![0u8; 32],
            total_stake: 100,
            validator_count: 2,
            approver_count: 2,
            approver_stake: 70,
        });
    }
    assert_eq!(history.get_by_epoch(2).unwrap().slot, 20);
    assert!(history.get_by_epoch(9).is_none());
    assert_eq!(history.get_latest().unwrap().update_epoch, 3);
}

#[test]
fn update_record_consensus_check() {
    let record = ValidatorSetUpdateRecord::new(
        1,
        10,
        0,
        &vec![ValidatorInfo { identity: pk(1), stake: 100 }],
        100,
        2,
        200,
    );
    // Threshold of 300 is 200: met exactly.
    assert!(record.verify_consensus(300).unwrap());
    // Threshold of 301 is 201: missed.
    assert!(!record.verify_consensus(301).unwrap());
}

#[test]
fn stake_threshold_formula() {
    assert_eq!(calculate_stake_threshold(1_000_000, 900).unwrap(), 90_000);
    assert_eq!(calculate_stake_threshold(0, 900).unwrap(), 0);
    assert_eq!(calculate_stake_threshold(10_000, 6667).unwrap(), 6_667);
}

#[test]
fn stake_weighted_threshold_check() {
    let set = ValidatorSet {
        validators: vec![
            ValidatorInfo { identity: pk(1), stake: 100 },
            ValidatorInfo { identity: pk(2), stake: 100 },
            ValidatorInfo { identity: pk(3), stake: 100 },
        ],
    };
    let (stake, ok) = set.verify_stake_threshold(&vec![pk(1), pk(2)], 300).unwrap();
    assert_eq!(stake, 200);
    assert!(ok);
    let (stake2, ok2) = set.verify_stake_threshold(&vec![pk(1)], 300).unwrap();
    assert_eq!(stake2, 100);
    assert!(!ok2);
}

#[test]
fn extract_round_trip_and_errors() {
    let identity = pk(33);
    let signature = vec![9u8; 64];
    let message = vec![4u8; 32];
    let data = extract_layout_data(&identity, &signature, &message);
    let (got_pk, got_sig, got_msg) = extract_ed25519_data(&data).unwrap();
    assert_eq!(got_pk, identity);
    assert_eq!(got_sig, signature);
    assert_eq!(got_msg, message);

    let short = vec![0u8; 10];
    assert_eq!(
        extract_ed25519_data(&short).unwrap_err(),
        LightClientError::InvalidEd25519Instruction
    );

    let mut bad_size = extract_layout_data(&identity, &signature, &message);
    put_le16(&mut bad_size, 12, 31);
    assert_eq!(
        extract_ed25519_data(&bad_size).unwrap_err(),
        LightClientError::InvalidMessageSize
    );
}

#[test]
fn parse_burn_record_round_trip() {
    let user = pk(50);
    let data = burn_record_bytes(&user, 1000, 7, 42);
    let record = parse_burn_record(&data).unwrap();
    assert_eq!(record.user, user);
    assert_eq!(record.amount, 1000);
    assert_eq!(record.nonce, 7);
    assert_eq!(record.timestamp, 42);

    let short = vec![0u8; 88];
    assert_eq!(
        parse_burn_record(&short).unwrap_err(),
        LightClientError::BurnRecordDeserializationFailed
    );
}

#[test]
fn minimal_proof_verifies_end_to_end() {
    let config = seven_validator_config();
    let user = pk(50);
    let record_data = burn_record_bytes(&user, 1000, 7, 42);
    let proof = BurnProof {
        burn_nonce: 7,
        user,
        amount: 1000,
        slot: 100,
        block_hash: vec![1u8; 32],
        state_root: keccak256(&record_data),
        merkle_proof: Vec::new(),
        burn_record_data: record_data,
        validator_count: 3,
    };
    let message = create_vote_message(&proof.block_hash, proof.slot);
    let program = ed25519_program_id();
    let instructions: Vec<InstructionData> = (1..4u64)
        .map(|i| InstructionData {
            program_id: program,
            data: extract_layout_data(&pk(i), &vec![9u8; 64], &message),
        })
        .collect();

    assert!(verify_burn_proof_minimal(&proof, &config, &instructions, 0, 150).is_ok());

    // Not final yet: too few confirmations.
    assert_eq!(
        verify_burn_proof_minimal(&proof, &config, &instructions, 0, 120).unwrap_err(),
        LightClientError::InsufficientFinality
    );

    // A foreign vote message cannot be borrowed.
    let other_message = create_vote_message(&vec![2u8; 32], proof.slot);
    let mut tampered = instructions.clone();
    tampered[1] = InstructionData {
        program_id: program,
        data: extract_layout_data(&pk(2), &vec![9u8; 64], &other_message),
    };
    assert_eq!(
        verify_burn_proof_minimal(&proof, &config, &tampered, 0, 150).unwrap_err(),
        LightClientError::InvalidVoteMessage
    );

    // The same signer twice is rejected.
    let mut duplicated = instructions.clone();
    duplicated[2] = duplicated[1].clone();
    assert_eq!(
        verify_burn_proof_minimal(&proof, &config, &duplicated, 0, 150).unwrap_err(),
        LightClientError::DuplicateValidator
    );

    // A signer outside the tracked roster is rejected.
    let mut foreign = instructions.clone();
    foreign[2] = InstructionData {
        program_id: program,
        data: extract_layout_data(&pk(60), &vec![9u8; 64], &message),
    };
    assert_eq!(
        verify_burn_proof_minimal(&proof, &config, &foreign, 0, 150).unwrap_err(),
        LightClientError::UnknownValidator
    );
}

#[test]
fn legacy_proof_verifies_end_to_end() {
    let validator_set = ValidatorSet {
        validators: vec![
            ValidatorInfo { identity: pk(1), stake: 100 },
            ValidatorInfo { identity: pk(2), stake: 100 },
            ValidatorInfo { identity: pk(3), stake: 100 },
        ],
    };
    let user = pk(50);
    let record_data = burn_record_bytes(&user, 1000, 7, 42);
    let leaf = keccak256(&record_data);
    let sibling = vec![3u8; 32];
    let proof = BurnProof {
        burn_nonce: 7,
        user,
        amount: 1000,
        slot: 100,
        block_hash: vec![1u8; 32],
        state_root: hash_sorted_pair(&leaf, &sibling),
        merkle_proof: vec![sibling],
        burn_record_data: record_data,
        validator_count: 3,
    };
    let message = create_vote_message(&proof.block_hash, proof.slot);
    let program = ed25519_program_id();
    let votes: Vec<ValidatorVote> = (1..4u64)
        .map(|i| ValidatorVote {
            validator_identity: pk(i),
            stake: 100,
            signature: vec![9u8; 64],
        })
        .collect();
    let instructions: Vec<InstructionData> = (1..4u64)
        .map(|i| InstructionData {
            program_id: program,
            data: binding_layout_data(&pk(i), &vec![9u8; 64], &message),
        })
        .collect();

    let result =
        verify_burn_proof_legacy(&proof, &votes, &validator_set, 1000, &instructions, 0).unwrap();
    assert_eq!(result.verified_stake, 300);
    assert_eq!(result.validator_count, 3);
    assert!(result.verified);

    // A different claimed amount than the proven record is rejected.
    let wrong_amount = BurnProof { amount: 2000, ..proof.clone() };
    assert_eq!(
        verify_burn_proof_legacy(&wrong_amount, &votes, &validator_set, 1000, &instructions, 0)
            .unwrap_err(),
        LightClientError::BurnRecordMismatch
    );

    // A tampered signature breaks the binding.
    let mut tampered_votes = votes.clone();
    tampered_votes[0].signature = vec![8u8; 64];
    assert_eq!(
        verify_burn_proof_legacy(&proof, &tampered_votes, &validator_set, 1000, &instructions, 0)
            .unwrap_err(),
        LightClientError::InvalidValidatorSignature
    );
}

#[test]
fn burn_assigns_nonces_and_tracks_totals() {
    let mut state = GlobalState { nonce_counter: 0, total_burns: 0, total_amount_burned: 0 };
    let user = pk(70);
    let (record, event) = burn_xencat(&mut state, user, 500, 1111, 3).unwrap();
    assert_eq!(record.nonce, 0);
    assert_eq!(record.amount, 500);
    assert_eq!(record.user, user);
    assert_eq!(record.record_hash.len(), 32);
    assert_eq!(event.nonce, 0);
    assert_eq!(state.nonce_counter, 1);
    assert_eq!(state.total_burns, 1);
    assert_eq!(state.total_amount_burned, 500);

    let (record2, _) = burn_xencat(&mut state, user, 300, 1112, 3).unwrap();
    assert_eq!(record2.nonce, 1);
    assert_eq!(state.total_amount_burned, 800);

    assert_eq!(
        burn_xencat(&mut state, user, 0, 1113, 3).unwrap_err(),
        ErrorCode::InvalidAmount
    );
    assert_eq!(state.total_burns, 2);
}
