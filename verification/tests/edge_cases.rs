use burn_bridge::burn::burn_xencat;
use burn_bridge::burn::ErrorCode;
use burn_bridge::burn::GlobalState;
use burn_bridge::byteseq::append_bytes;
use burn_bridge::ed25519_utils::create_vote_message;
use burn_bridge::ed25519_utils::ed25519_program_id;
use burn_bridge::ed25519_utils::InstructionData;
use burn_bridge::errors::LightClientError;
use burn_bridge::hashes::keccak256;
use burn_bridge::mint::MintError;
use burn_bridge::mint::MintState;
use burn_bridge::pubkey::Pubkey;
use burn_bridge::stake::ValidatorConfig;
use burn_bridge::stake::ValidatorInfo;
use burn_bridge::stake::ValidatorSet;
use burn_bridge::store::ProcessedBurnStore;
use burn_bridge::store::ProcessedBurnV3;
use burn_bridge::store::VerifiedBurnStore;
use burn_bridge::store::VerifiedBurnV3;
use burn_bridge::validator_set::update_validator_set;
use burn_bridge::validator_set::UpdateValidatorSetParams;
use burn_bridge::validator_set::ValidatorUpdateSignature;
use burn_bridge::validator_set::X1ValidatorSet;
use burn_bridge::verification::verify_burn_proof;
use burn_bridge::verification::verify_burn_proof_legacy;
use burn_bridge::verification::verify_burn_proof_minimal;
use burn_bridge::verification::BurnProof;
use burn_bridge::verification::ValidatorVote;
use burn_bridge::xencat_mint;

fn pk(n: u64) -> Pubkey {
    Pubkey { w0: n, w1: 5, w2: 0, w3: 0 }
}

fn put_le16(d: &mut Vec<u8>, pos: usize, value: u16) {
    d[pos] = (value & 0xff) as u8;
    d[pos + 1] = (value >> 8) as u8;
}

fn extract_layout_data(identity: &Pubkey, signature: &Vec<u8>, message: &Vec<u8>) -> Vec<u8> {
    let mut d = vec![0u8; 16];
    d[0] = 1;
    put_le16(&mut d, 2, 16);
    put_le16(&mut d, 6, 80);
    put_le16(&mut d, 10, 112);
    put_le16(&mut d, 12, 32);
    append_bytes(&mut d, signature);
    let id_bytes = identity.to_bytes();
    append_bytes(&mut d, &id_bytes);
    append_bytes(&mut d, message);
    d
}

fn binding_layout_data(identity: &Pubkey, signature: &Vec<u8>, message: &Vec<u8>) -> Vec<u8> {
    let mut d = vec![0u8; 16];
    d[0] = 1;
    put_le16(&mut d, 1, 16);
    put_le16(&mut d, 5, 80);
    put_le16(&mut d, 9, 112);
    put_le16(&mut d, 11, 32);
    append_bytes(&mut d, signature);
    let id_bytes = identity.to_bytes();
    append_bytes(&mut d, &id_bytes);
    append_bytes(&mut d, message);
    d
}

fn burn_record_bytes(user: &Pubkey, amount: u64, nonce: u64, timestamp: u64) -> Vec<u8> {
    let mut d = user.to_bytes();
    d.extend_from_slice(&amount.to_le_bytes());
    d.extend_from_slice(&nonce.to_le_bytes());
    d.extend_from_slice(&timestamp.to_le_bytes());
    d.extend_from_slice(&[0u8; 32]);
    d.push(0);
    d
}

fn config_with_stakes(primary_stake: u64) -> ValidatorConfig {
    ValidatorConfig {
        current_epoch: 1,
        last_update: 0,
        primary_validators: (1..4u64)
            .map(|i| ValidatorInfo { identity: pk(i), stake: primary_stake })
            .collect(),
        fallback_validators: (4..8u64)
            .map(|i| ValidatorInfo { identity: pk(i), stake: 10 })
            .collect(),
        total_tracked_stake: 340,
    }
}

fn minimal_proof(user: Pubkey) -> BurnProof {
    let record_data = burn_record_bytes(&user, 1000, 7, 42);
    BurnProof {
        burn_nonce: 7,
        user,
        amount: 1000,
        slot: 100,
        block_hash: vec![1u8; 32],
        state_root: keccak256(&record_data),
        merkle_proof: Vec::new(),
        burn_record_data: record_data,
        validator_count: 3,
    }
}

fn minimal_instructions(proof: &BurnProof) -> Vec<InstructionData> {
    let message = create_vote_message(&proof.block_hash, proof.slot);
    let program = ed25519_program_id();
    (1..4u64)
        .map(|i| InstructionData {
            program_id: program,
            data: extract_layout_data(&pk(i), &vec![9u8; 64], &message),
        })
        .collect()
}

#[test]
fn rotation_fails_closed_on_version_overflow() {
    let mut set = X1ValidatorSet {
        version: u64::MAX,
        validators: vec![pk(1), pk(2), pk(3)],
        threshold: 2,
    };
    let params = UpdateValidatorSetParams {
        new_validators: vec![pk(4), pk(5)],
        new_threshold: 1,
        approver_signatures: vec![
            ValidatorUpdateSignature { validator_pubkey: pk(1), signature: vec![0u8; 64] },
            ValidatorUpdateSignature { validator_pubkey: pk(2), signature: vec![0u8; 64] },
        ],
    };
    assert_eq!(
        update_validator_set(&mut set, &params).unwrap_err(),
        LightClientError::ArithmeticOverflow
    );
    assert_eq!(set.version, u64::MAX);
}

#[test]
fn minimal_proof_rejects_future_slot_and_low_stake() {
    let user = pk(50);
    let proof = minimal_proof(user);
    let instructions = minimal_instructions(&proof);

    // The referenced slot must lie in the past.
    let config = config_with_stakes(100);
    assert_eq!(
        verify_burn_proof_minimal(&proof, &config, &instructions, 0, 100).unwrap_err(),
        LightClientError::InvalidSlot
    );

    // Three tiny signers cannot reach the basis-point threshold: the
    // threshold of 340 is 30, and 3 nanostakes fall short.
    let mut weak = config_with_stakes(1);
    weak.total_tracked_stake = 340;
    assert_eq!(
        verify_burn_proof_minimal(&proof, &weak, &instructions, 0, 150).unwrap_err(),
        LightClientError::InsufficientStake
    );
}

#[test]
fn minimal_proof_rejects_wrong_merkle_root() {
    let user = pk(50);
    let mut proof = minimal_proof(user);
    proof.state_root = vec![7u8; 32];
    let instructions = minimal_instructions(&proof);
    let config = config_with_stakes(100);
    assert_eq!(
        verify_burn_proof_minimal(&proof, &config, &instructions, 0, 150).unwrap_err(),
        LightClientError::InvalidMerkleProof
    );
}

#[test]
fn minimal_proof_stake_accumulation_fails_closed() {
    let user = pk(50);
    let proof = minimal_proof(user);
    let instructions = minimal_instructions(&proof);
    let mut rich = config_with_stakes(u64::MAX);
    rich.total_tracked_stake = u64::MAX;
    assert_eq!(
        verify_burn_proof_minimal(&proof, &rich, &instructions, 0, 150).unwrap_err(),
        LightClientError::StakeOverflow
    );
}

#[test]
fn config_proof_verifies_end_to_end() {
    let config = config_with_stakes(100);
    let user = pk(50);
    let record_data = burn_record_bytes(&user, 1000, 7, 42);
    let leaf = keccak256(&record_data);
    let sibling = vec![3u8; 32];
    let proof = BurnProof {
        burn_nonce: 7,
        user,
        amount: 1000,
        slot: 100,
        block_hash: vec![1u8; 32],
        state_root: burn_bridge::merkle::hash_sorted_pair(&leaf, &sibling),
        merkle_proof: vec![sibling],
        burn_record_data: record_data,
        validator_count: 3,
    };
    let message = create_vote_message(&proof.block_hash, proof.slot);
    let program = ed25519_program_id();
    let votes: Vec<ValidatorVote> = (1..4u64)
        .map(|i| ValidatorVote { validator_identity: pk(i), stake: 100, signature: vec![9u8; 64] })
        .collect();
    let instructions: Vec<InstructionData> = (1..4u64)
        .map(|i| InstructionData {
            program_id: program,
            data: binding_layout_data(&pk(i), &vec![9u8; 64], &message),
        })
        .collect();

    let result = verify_burn_proof(&proof, &votes, &config, &instructions, 0).unwrap();
    assert_eq!(result.verified_stake, 300);
    assert!(result.verified);

    // A voter outside the configuration is named precisely.
    let mut foreign_votes = votes.clone();
    foreign_votes[2].validator_identity = pk(60);
    let mut foreign_ixs = instructions.clone();
    foreign_ixs[2] = InstructionData {
        program_id: program,
        data: binding_layout_data(&pk(60), &vec![9u8; 64], &message),
    };
    assert_eq!(
        verify_burn_proof(&proof, &foreign_votes, &config, &foreign_ixs, 0).unwrap_err(),
        LightClientError::ValidatorNotFound
    );

    // An empty vote list is rejected outright.
    assert_eq!(
        verify_burn_proof_legacy(&proof, &Vec::new(), &ValidatorSet { validators: Vec::new() },
            1000, &instructions, 0)
            .unwrap_err(),
        LightClientError::EmptyValidatorVotes
    );
}

#[test]
fn mint_replay_guard_fires_even_with_unconsumed_record() {
    // A processed-burn record already exists while the verified record is
    // still unconsumed: the create-once guard must win.
    let set = X1ValidatorSet { version: 1, validators: vec![pk(1), pk(2)], threshold: 1 };
    let mut verified = VerifiedBurnStore::new();
    let mut processed = ProcessedBurnStore::new();
    let user = pk(70);
    assert!(verified.create(VerifiedBurnV3 {
        asset_id: 1,
        burn_nonce: 9,
        user,
        amount: 100,
        verified_at: 0,
        processed: false,
    }));
    assert!(processed.create(ProcessedBurnV3 {
        asset_id: 1,
        nonce: 9,
        user,
        amount: 100,
        processed_at: 0,
    }));
    let mut state = MintState {
        authority: pk(90),
        destination_mint: pk(91),
        fee_per_validator: 0,
        light_client_program: pk(92),
        validator_set_version: 1,
        processed_burns_count: 0,
        total_minted: 0,
    };
    let r = xencat_mint::mint_from_burn_v3(
        &mut state,
        &set,
        &mut verified,
        &mut processed,
        1,
        9,
        user,
        &Vec::new(),
        20,
    );
    assert_eq!(r.unwrap_err(), MintError::BurnAlreadyProcessed);
}

#[test]
fn fee_total_overflow_fails_closed() {
    let set = X1ValidatorSet { version: 1, validators: vec![pk(1), pk(2)], threshold: 1 };
    let mut verified = VerifiedBurnStore::new();
    let mut processed = ProcessedBurnStore::new();
    let user = pk(71);
    assert!(verified.create(VerifiedBurnV3 {
        asset_id: 1,
        burn_nonce: 10,
        user,
        amount: 100,
        verified_at: 0,
        processed: false,
    }));
    let mut state = MintState {
        authority: pk(90),
        destination_mint: pk(91),
        fee_per_validator: u64::MAX,
        light_client_program: pk(92),
        validator_set_version: 1,
        processed_burns_count: 0,
        total_minted: 0,
    };
    let r = xencat_mint::mint_from_burn_v3(
        &mut state,
        &set,
        &mut verified,
        &mut processed,
        1,
        10,
        user,
        &Vec::new(),
        20,
    );
    assert_eq!(r.unwrap_err(), MintError::Overflow);
}

#[test]
fn mint_counters_saturate_instead_of_blocking() {
    let set = X1ValidatorSet { version: 1, validators: vec![pk(1)], threshold: 1 };
    let mut verified = VerifiedBurnStore::new();
    let mut processed = ProcessedBurnStore::new();
    let user = pk(72);
    assert!(verified.create(VerifiedBurnV3 {
        asset_id: 1,
        burn_nonce: 11,
        user,
        amount: 100,
        verified_at: 0,
        processed: false,
    }));
    let mut state = MintState {
        authority: pk(90),
        destination_mint: pk(91),
        fee_per_validator: 0,
        light_client_program: pk(92),
        validator_set_version: 1,
        processed_burns_count: u64::MAX,
        total_minted: u64::MAX - 10,
    };
    let outcome = xencat_mint::mint_from_burn_v3(
        &mut state,
        &set,
        &mut verified,
        &mut processed,
        1,
        11,
        user,
        &Vec::new(),
        20,
    )
    .expect("saturating counters must not block a valid mint");
    assert_eq!(outcome.minted_amount, 100);
    assert_eq!(state.processed_burns_count, u64::MAX);
    assert_eq!(state.total_minted, u64::MAX);
}

#[test]
fn burn_counters_fail_closed() {
    let user = pk(73);
    let mut at_nonce_limit =
        GlobalState { nonce_counter: u64::MAX, total_burns: 0, total_amount_burned: 0 };
    assert_eq!(
        burn_xencat(&mut at_nonce_limit, user, 5, 1, 0).unwrap_err(),
        ErrorCode::NonceOverflow
    );

    let mut at_burn_limit =
        GlobalState { nonce_counter: 0, total_burns: u64::MAX, total_amount_burned: 0 };
    assert_eq!(
        burn_xencat(&mut at_burn_limit, user, 5, 1, 0).unwrap_err(),
        ErrorCode::CounterOverflow
    );

    let mut at_amount_limit =
        GlobalState { nonce_counter: 0, total_burns: 0, total_amount_burned: u64::MAX };
    assert_eq!(
        burn_xencat(&mut at_amount_limit, user, 5, 1, 0).unwrap_err(),
        ErrorCode::AmountOverflow
    );
}
