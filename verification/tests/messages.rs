use burn_bridge::attestation::create_attestation_message;
use burn_bridge::attestation::create_attestation_message_v3;
use burn_bridge::byteseq::append_bytes;
use burn_bridge::ed25519_utils::create_vote_message;
use burn_bridge::hashes::keccak256;
use burn_bridge::merkle::compute_merkle_root;
use burn_bridge::merkle::hash_sorted_pair;
use burn_bridge::pubkey::Pubkey;
use burn_bridge::stake::ValidatorInfo;
use burn_bridge::history::ValidatorSetUpdateRecord;

fn pk(n: u64) -> Pubkey {
    Pubkey { w0: n, w1: n.wrapping_mul(7), w2: 0, w3: 0 }
}

#[test]
fn test_create_vote_message() {
    let block_hash = vec![1u8; 32];
    let slot = 12345u64;
    let message = create_vote_message(&block_hash, slot);

    // Vote message should be 32 bytes
    assert_eq!(message.len(), 32);

    // Same inputs should produce same output
    let message2 = create_vote_message(&block_hash, slot);
    assert_eq!(message, message2);

    // Different slot should produce different output
    let message3 = create_vote_message(&block_hash, slot + 1);
    assert_ne!(message, message3);
}

#[test]
fn test_vote_message_creation() {
    let block_hash = vec![1u8; 32];
    let slot = 123456u64;

    let msg1 = create_vote_message(&block_hash, slot);
    let msg2 = create_vote_message(&block_hash, slot);

    // Should be deterministic
    assert_eq!(msg1, msg2);

    // Different slot should produce different message
    let msg3 = create_vote_message(&block_hash, slot + 1);
    assert_ne!(msg1, msg3);
}

#[test]
fn test_attestation_message_v3_differs_by_asset() {
    let user = pk(41);
    let nonce = 123;
    let amount = 1000;
    let version = 1;

    // Same burn data, different assets
    let xencat_msg = create_attestation_message_v3(1, nonce, user, amount, version);
    let dgn_msg = create_attestation_message_v3(2, nonce, user, amount, version);

    // Messages MUST be different (prevents cross-asset replay)
    assert_ne!(xencat_msg, dgn_msg, "Asset-aware messages must differ");
}

#[test]
fn test_attestation_message_v3_deterministic() {
    let user = pk(42);
    let nonce = 123;
    let amount = 1000;
    let version = 1;
    let asset_id = 1;

    // Same input should produce same output
    let msg1 = create_attestation_message_v3(asset_id, nonce, user, amount, version);
    let msg2 = create_attestation_message_v3(asset_id, nonce, user, amount, version);

    assert_eq!(msg1, msg2, "Message creation must be deterministic");
}

#[test]
fn test_attestation_message_v3_differs_by_each_field() {
    let base = create_attestation_message_v3(1, 5, pk(1), 10, 1);
    assert_ne!(base, create_attestation_message_v3(2, 5, pk(1), 10, 1));
    assert_ne!(base, create_attestation_message_v3(1, 6, pk(1), 10, 1));
    assert_ne!(base, create_attestation_message_v3(1, 5, pk(2), 10, 1));
    assert_ne!(base, create_attestation_message_v3(1, 5, pk(1), 11, 1));
    assert_ne!(base, create_attestation_message_v3(1, 5, pk(1), 10, 2));
}

#[test]
fn test_attestation_message_v2_and_v3_lengths() {
    let v2 = create_attestation_message(5, pk(9), 10, 1);
    let v3 = create_attestation_message_v3(1, 5, pk(9), 10, 1);
    assert_eq!(v2.len(), 32);
    assert_eq!(v3.len(), 32);
}

#[test]
fn test_merkle_two_leaf_root_order_independent() {
    // Leaves A < B lexicographically.
    let a = vec![1u8; 32];
    let b = vec![2u8; 32];

    // Whichever leaf starts the path, the root is the same.
    let root_from_a = compute_merkle_root(&a, &vec![b.clone()]);
    let root_from_b = compute_merkle_root(&b, &vec![a.clone()]);
    assert_eq!(root_from_a, root_from_b);

    // And it is hash(A || B) with the smaller leaf first.
    let mut concat: Vec<u8> = Vec::new();
    append_bytes(&mut concat, &a);
    append_bytes(&mut concat, &b);
    assert_eq!(root_from_a, keccak256(&concat));
    assert_eq!(root_from_a, hash_sorted_pair(&a, &b));
    assert_eq!(root_from_a, hash_sorted_pair(&b, &a));
}

#[test]
fn test_merkle_root_empty_path_is_leaf() {
    let leaf = vec![7u8; 32];
    let root = compute_merkle_root(&leaf, &Vec::new());
    assert_eq!(root, leaf);
}

#[test]
fn test_validator_set_hash_deterministic() {
    let validators = vec![
        ValidatorInfo { identity: pk(100), stake: 1000 },
        ValidatorInfo { identity: pk(200), stake: 2000 },
    ];

    let hash1 = ValidatorSetUpdateRecord::hash_validator_set(&validators);
    let hash2 = ValidatorSetUpdateRecord::hash_validator_set(&validators);

    assert_eq!(hash1, hash2);
}

#[test]
fn test_validator_set_hash_order_independent() {
    let forward = vec![
        ValidatorInfo { identity: pk(100), stake: 1000 },
        ValidatorInfo { identity: pk(200), stake: 2000 },
    ];
    let backward = vec![
        ValidatorInfo { identity: pk(200), stake: 2000 },
        ValidatorInfo { identity: pk(100), stake: 1000 },
    ];
    assert_eq!(
        ValidatorSetUpdateRecord::hash_validator_set(&forward),
        ValidatorSetUpdateRecord::hash_validator_set(&backward)
    );
}
