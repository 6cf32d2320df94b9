use burn_bridge::attestation::submit_burn_attestation_v3;
use burn_bridge::attestation::Asset;
use burn_bridge::attestation::BurnAttestationData;
use burn_bridge::attestation::ValidatorAttestation;
use burn_bridge::dgn_mint;
use burn_bridge::errors::LightClientError;
use burn_bridge::mint::FeeTarget;
use burn_bridge::mint::MintError;
use burn_bridge::mint::MintState;
use burn_bridge::pubkey::Pubkey;
use burn_bridge::store::ProcessedBurnStore;
use burn_bridge::store::VerifiedBurnStore;
use burn_bridge::validator_set::update_validator_set;
use burn_bridge::validator_set::UpdateValidatorSetParams;
use burn_bridge::validator_set::ValidatorUpdateSignature;
use burn_bridge::validator_set::X1ValidatorSet;
use burn_bridge::xencat_mint;

fn pk(n: u64) -> Pubkey {
    Pubkey { w0: n, w1: 0, w2: 0, w3: n.wrapping_add(3) }
}

fn attestation_from(validator: Pubkey) -> ValidatorAttestation {
    ValidatorAttestation { validator_pubkey: validator, signature: vec![0u8; 64], timestamp: 1 }
}

fn three_validator_set() -> X1ValidatorSet {
    X1ValidatorSet { version: 1, validators: vec![pk(1), pk(2), pk(3)], threshold: 2 }
}

fn batch(asset_id: u8, nonce: u64, user: Pubkey, amount: u64, version: u64, signers: Vec<Pubkey>) -> BurnAttestationData {
    BurnAttestationData {
        asset_id,
        burn_nonce: nonce,
        user,
        amount,
        validator_set_version: version,
        attestations: signers.into_iter().map(attestation_from).collect(),
    }
}

fn mint_state(fee: u64, version: u64) -> MintState {
    MintState {
        authority: pk(90),
        destination_mint: pk(91),
        fee_per_validator: fee,
        light_client_program: pk(92),
        validator_set_version: version,
        processed_burns_count: 0,
        total_minted: 0,
    }
}

fn writable_targets(set: &X1ValidatorSet) -> Vec<FeeTarget> {
    set.validators.iter().map(|v| FeeTarget { key: *v, writable: true }).collect()
}

#[test]
fn end_to_end_verify_then_mint_then_replay() {
    // Validator set {V1,V2,V3}, threshold 2, version 1.
    let set = three_validator_set();
    let mut verified = VerifiedBurnStore::new();
    let mut processed = ProcessedBurnStore::new();
    let user = pk(77);

    // Attestations from V1 and V2 for (asset=2, nonce=7, user, amount=1000, version=1).
    let request = batch(2, 7, user, 1000, 1, vec![pk(1), pk(2)]);
    let record = submit_burn_attestation_v3(&set, &mut verified, 2, 7, user, &request, 100)
        .expect("verification must succeed");
    assert_eq!(record.amount, 1000);
    assert!(!record.processed);

    // Mint for the same key succeeds with exactly the verified amount.
    let mut state = mint_state(5, 1);
    let targets = writable_targets(&set);
    let outcome = dgn_mint::mint_from_burn_v3(
        &mut state,
        &set,
        &mut verified,
        &mut processed,
        2,
        7,
        user,
        &targets,
        200,
    )
    .expect("mint must succeed");
    assert_eq!(outcome.minted_amount, 1000);
    assert_eq!(outcome.event.asset_id, 2);
    assert_eq!(outcome.event.nonce, 7);
    assert_eq!(outcome.event.amount, 1000);
    assert_eq!(outcome.fee_transfers.len(), 3);
    assert_eq!(outcome.fee_transfers[0].to, pk(1));
    assert_eq!(outcome.fee_transfers[0].amount, 5);
    assert_eq!(state.total_minted, 1000);
    assert_eq!(state.processed_burns_count, 1);

    // A processed-burn record now exists with the minted amount.
    let processed_record = processed.get(&(2, user, 7)).expect("processed record must exist");
    assert_eq!(processed_record.amount, 1000);

    // Repeating the identical mint fails with a replay error; nothing moves.
    let repeat = dgn_mint::mint_from_burn_v3(
        &mut state,
        &set,
        &mut verified,
        &mut processed,
        2,
        7,
        user,
        &targets,
        201,
    );
    assert_eq!(repeat.unwrap_err(), MintError::ProofAlreadyProcessed);
    assert_eq!(state.total_minted, 1000);
    assert_eq!(state.processed_burns_count, 1);
}

#[test]
fn second_submission_is_replay() {
    let set = three_validator_set();
    let mut verified = VerifiedBurnStore::new();
    let user = pk(7);
    let request = batch(1, 3, user, 50, 1, vec![pk(1), pk(3)]);

    assert!(submit_burn_attestation_v3(&set, &mut verified, 1, 3, user, &request, 10).is_ok());
    let again = submit_burn_attestation_v3(&set, &mut verified, 1, 3, user, &request, 11);
    assert_eq!(again.unwrap_err(), LightClientError::BurnAlreadyVerified);
}

#[test]
fn same_nonce_different_assets_do_not_collide() {
    let set = three_validator_set();
    let mut verified = VerifiedBurnStore::new();
    let user = pk(8);

    let xencat = batch(1, 4, user, 60, 1, vec![pk(1), pk(2)]);
    let dgn = batch(2, 4, user, 60, 1, vec![pk(1), pk(2)]);
    assert!(submit_burn_attestation_v3(&set, &mut verified, 1, 4, user, &xencat, 10).is_ok());
    assert!(submit_burn_attestation_v3(&set, &mut verified, 2, 4, user, &dgn, 10).is_ok());
}

#[test]
fn below_threshold_batch_rejected() {
    let set = three_validator_set();
    let mut verified = VerifiedBurnStore::new();
    let user = pk(9);
    let request = batch(1, 5, user, 70, 1, vec![pk(1)]);
    let r = submit_burn_attestation_v3(&set, &mut verified, 1, 5, user, &request, 10);
    assert_eq!(r.unwrap_err(), LightClientError::InsufficientAttestations);
}

#[test]
fn duplicate_validator_rejected() {
    let set = three_validator_set();
    let mut verified = VerifiedBurnStore::new();
    let user = pk(10);
    let request = batch(1, 6, user, 70, 1, vec![pk(1), pk(1)]);
    let r = submit_burn_attestation_v3(&set, &mut verified, 1, 6, user, &request, 10);
    assert_eq!(r.unwrap_err(), LightClientError::DuplicateValidator);
}

#[test]
fn unknown_validator_rejected() {
    let set = three_validator_set();
    let mut verified = VerifiedBurnStore::new();
    let user = pk(11);
    let request = batch(1, 7, user, 70, 1, vec![pk(1), pk(55)]);
    let r = submit_burn_attestation_v3(&set, &mut verified, 1, 7, user, &request, 10);
    assert_eq!(r.unwrap_err(), LightClientError::UnknownValidator);
}

#[test]
fn malformed_signature_rejected() {
    let set = three_validator_set();
    let mut verified = VerifiedBurnStore::new();
    let user = pk(12);
    let mut request = batch(1, 8, user, 70, 1, vec![pk(1), pk(2)]);
    request.attestations[1].signature = vec![0u8; 63];
    let r = submit_burn_attestation_v3(&set, &mut verified, 1, 8, user, &request, 10);
    assert_eq!(r.unwrap_err(), LightClientError::InvalidSignatureFormat);
}

#[test]
fn unknown_asset_rejected() {
    let set = three_validator_set();
    let mut verified = VerifiedBurnStore::new();
    let user = pk(13);
    let request = batch(9, 9, user, 70, 1, vec![pk(1), pk(2)]);
    let r = submit_burn_attestation_v3(&set, &mut verified, 9, 9, user, &request, 10);
    assert_eq!(r.unwrap_err(), LightClientError::InvalidAsset);
    assert!(Asset::from_u8(9).is_err());
    assert_eq!(Asset::from_u8(1).unwrap(), Asset::XENCAT);
    assert_eq!(Asset::from_u8(2).unwrap(), Asset::DGN);
}

#[test]
fn mismatched_request_parameters_rejected() {
    let set = three_validator_set();
    let mut verified = VerifiedBurnStore::new();
    let user = pk(14);
    let request = batch(1, 10, user, 70, 1, vec![pk(1), pk(2)]);
    let r = submit_burn_attestation_v3(&set, &mut verified, 2, 10, user, &request, 10);
    assert_eq!(r.unwrap_err(), LightClientError::InvalidAttestation);
}

#[test]
fn rotation_increases_version_and_invalidates_old_attestations() {
    // Rotate to version 2 with approvals from the current validators.
    let mut set = three_validator_set();
    let params = UpdateValidatorSetParams {
        new_validators: vec![pk(4), pk(5), pk(6)],
        new_threshold: 2,
        approver_signatures: vec![
            ValidatorUpdateSignature { validator_pubkey: pk(1), signature: vec![0u8; 64] },
            ValidatorUpdateSignature { validator_pubkey: pk(2), signature: vec![0u8; 64] },
        ],
    };
    let new_version = update_validator_set(&mut set, &params).expect("rotation must succeed");
    assert_eq!(new_version, 2);
    assert_eq!(set.version, 2);
    assert_eq!(set.validators, vec![pk(4), pk(5), pk(6)]);

    // A new batch still pinned to version 1 is rejected.
    let mut verified = VerifiedBurnStore::new();
    let user = pk(15);
    let stale = batch(1, 11, user, 70, 1, vec![pk(4), pk(5)]);
    let r = submit_burn_attestation_v3(&set, &mut verified, 1, 11, user, &stale, 10);
    assert_eq!(r.unwrap_err(), LightClientError::InvalidValidatorSetVersion);
}

#[test]
fn rotation_mid_flight_keeps_verified_burn_mintable() {
    // Verify under version 1.
    let mut set = three_validator_set();
    let mut verified = VerifiedBurnStore::new();
    let mut processed = ProcessedBurnStore::new();
    let user = pk(16);
    let request = batch(1, 12, user, 500, 1, vec![pk(1), pk(2)]);
    assert!(submit_burn_attestation_v3(&set, &mut verified, 1, 12, user, &request, 10).is_ok());

    // Rotate to version 2 mid-flight.
    let params = UpdateValidatorSetParams {
        new_validators: vec![pk(4), pk(5)],
        new_threshold: 1,
        approver_signatures: vec![
            ValidatorUpdateSignature { validator_pubkey: pk(2), signature: vec![0u8; 64] },
            ValidatorUpdateSignature { validator_pubkey: pk(3), signature: vec![0u8; 64] },
        ],
    };
    assert_eq!(update_validator_set(&mut set, &params).unwrap(), 2);

    // The unconsumed verified burn can still be minted; version pinning
    // only governs the fee-distribution roster lookup.
    let mut state = mint_state(1, 2);
    let targets = writable_targets(&set);
    let outcome = xencat_mint::mint_from_burn_v3(
        &mut state,
        &set,
        &mut verified,
        &mut processed,
        1,
        12,
        user,
        &targets,
        20,
    )
    .expect("mint after rotation must succeed");
    assert_eq!(outcome.minted_amount, 500);
    assert_eq!(outcome.fee_transfers.len(), 2);
}

#[test]
fn rotation_rejects_bad_threshold_and_short_approvals() {
    let mut set = three_validator_set();
    let zero_threshold = UpdateValidatorSetParams {
        new_validators: vec![pk(4)],
        new_threshold: 0,
        approver_signatures: vec![],
    };
    assert_eq!(
        update_validator_set(&mut set, &zero_threshold).unwrap_err(),
        LightClientError::InvalidThreshold
    );

    let short = UpdateValidatorSetParams {
        new_validators: vec![pk(4), pk(5)],
        new_threshold: 2,
        approver_signatures: vec![ValidatorUpdateSignature {
            validator_pubkey: pk(1),
            signature: vec![0u8; 64],
        }],
    };
    assert_eq!(
        update_validator_set(&mut set, &short).unwrap_err(),
        LightClientError::InsufficientSignatures
    );
    assert_eq!(set.version, 1);
}

#[test]
fn mint_rejects_wrong_asset_and_wrong_controller() {
    let set = three_validator_set();
    let mut verified = VerifiedBurnStore::new();
    let mut processed = ProcessedBurnStore::new();
    let user = pk(17);
    let request = batch(2, 13, user, 40, 1, vec![pk(1), pk(2)]);
    assert!(submit_burn_attestation_v3(&set, &mut verified, 2, 13, user, &request, 10).is_ok());

    // The XENCAT controller refuses a DGN burn outright.
    let mut state = mint_state(0, 1);
    let r = xencat_mint::mint_from_burn_v3(
        &mut state,
        &set,
        &mut verified,
        &mut processed,
        2,
        13,
        user,
        &Vec::new(),
        20,
    );
    assert_eq!(r.unwrap_err(), MintError::AssetNotMintable);
}

#[test]
fn mint_rejects_missing_record_and_version_mismatch() {
    let set = three_validator_set();
    let mut verified = VerifiedBurnStore::new();
    let mut processed = ProcessedBurnStore::new();
    let user = pk(18);

    // No verified burn at all.
    let mut state = mint_state(0, 1);
    let r = xencat_mint::mint_from_burn_v3(
        &mut state,
        &set,
        &mut verified,
        &mut processed,
        1,
        14,
        user,
        &Vec::new(),
        20,
    );
    assert_eq!(r.unwrap_err(), MintError::InvalidBurnProof);

    // Verified burn exists, but the snapshot is not the pinned version.
    let request = batch(1, 14, user, 40, 1, vec![pk(1), pk(2)]);
    assert!(submit_burn_attestation_v3(&set, &mut verified, 1, 14, user, &request, 10).is_ok());
    let mut state2 = mint_state(0, 9);
    let r2 = xencat_mint::mint_from_burn_v3(
        &mut state2,
        &set,
        &mut verified,
        &mut processed,
        1,
        14,
        user,
        &Vec::new(),
        20,
    );
    assert_eq!(r2.unwrap_err(), MintError::ValidatorSetVersionMismatch);
}

#[test]
fn fee_targets_must_match_roster_exactly() {
    let set = three_validator_set();
    let user = pk(19);
    let request = batch(1, 15, user, 40, 1, vec![pk(1), pk(2)]);

    // Too few targets.
    let mut verified = VerifiedBurnStore::new();
    let mut processed = ProcessedBurnStore::new();
    assert!(submit_burn_attestation_v3(&set, &mut verified, 1, 15, user, &request, 10).is_ok());
    let mut state = mint_state(5, 1);
    let two_targets = vec![
        FeeTarget { key: pk(1), writable: true },
        FeeTarget { key: pk(2), writable: true },
    ];
    let r = xencat_mint::mint_from_burn_v3(
        &mut state,
        &set,
        &mut verified,
        &mut processed,
        1,
        15,
        user,
        &two_targets,
        20,
    );
    assert_eq!(r.unwrap_err(), MintError::MissingValidatorAccount);

    // Wrong account in one slot.
    let wrong = vec![
        FeeTarget { key: pk(1), writable: true },
        FeeTarget { key: pk(99), writable: true },
        FeeTarget { key: pk(3), writable: true },
    ];
    let r2 = xencat_mint::mint_from_burn_v3(
        &mut state,
        &set,
        &mut verified,
        &mut processed,
        1,
        15,
        user,
        &wrong,
        20,
    );
    assert_eq!(r2.unwrap_err(), MintError::InvalidValidatorAccount);

    // Non-writable account.
    let frozen = vec![
        FeeTarget { key: pk(1), writable: true },
        FeeTarget { key: pk(2), writable: false },
        FeeTarget { key: pk(3), writable: true },
    ];
    let r3 = xencat_mint::mint_from_burn_v3(
        &mut state,
        &set,
        &mut verified,
        &mut processed,
        1,
        15,
        user,
        &frozen,
        20,
    );
    assert_eq!(r3.unwrap_err(), MintError::ValidatorAccountNotWritable);

    // Nothing was minted along the way.
    assert_eq!(state.total_minted, 0);
    assert!(processed.get(&(1, user, 15)).is_none());
}

#[test]
fn zero_fee_needs_no_targets() {
    let set = three_validator_set();
    let mut verified = VerifiedBurnStore::new();
    let mut processed = ProcessedBurnStore::new();
    let user = pk(20);
    let request = batch(1, 16, user, 40, 1, vec![pk(1), pk(2)]);
    assert!(submit_burn_attestation_v3(&set, &mut verified, 1, 16, user, &request, 10).is_ok());
    let mut state = mint_state(0, 1);
    let outcome = xencat_mint::mint_from_burn_v3(
        &mut state,
        &set,
        &mut verified,
        &mut processed,
        1,
        16,
        user,
        &Vec::new(),
        20,
    )
    .expect("zero-fee mint must succeed");
    assert!(outcome.fee_transfers.is_empty());
}
