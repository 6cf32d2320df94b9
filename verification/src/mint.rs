//! The mint controller: turns a verified burn into exactly one mint.
//!
//! A controller instance is authorised for a single asset, permanently.
//! Minting consumes a verified-burn record (flipping its `processed` flag,
//! which happens exactly once), creates the processed-burn record whose
//! create-once key is the replay guard, pays every current validator a fixed
//! fee funded by the minting user, and updates the counters. The whole
//! operation is atomic: on any failure nothing is changed and no fee
//! transfer is reported.
//!
//! The minted amount is always the amount recorded in the verified-burn
//! record; no caller-supplied amount exists in the interface.

use vstd::prelude::*;
use vstd::assert_by_contradiction;
use crate::pubkey::Pubkey;
use crate::store::{ProcessedBurnStore, ProcessedBurnV3, VerifiedBurnStore, VerifiedBurnV3};
use crate::validator_set::X1ValidatorSet;

verus! {

/// Reasons a mint can fail.
#[derive(Clone, Copy, PartialEq, Eq, Structural, Debug)]
pub enum MintError {
    /// The processed-burn record already exists (replay).
    BurnAlreadyProcessed,
    /// No verified-burn record exists for this key.
    InvalidBurnProof,
    /// The verified-burn record was already consumed.
    ProofAlreadyProcessed,
    /// The record belongs to a different user.
    InvalidUser,
    /// The record's nonce does not match the request.
    NonceMismatch,
    /// Fee-total computation overflowed.
    Overflow,
    /// Fewer fee-target accounts than validators.
    MissingValidatorAccount,
    /// A fee-target account does not match its validator.
    InvalidValidatorAccount,
    /// A fee-target account cannot receive funds.
    ValidatorAccountNotWritable,
    /// The supplied validator-set snapshot is not the version the mint
    /// state is pinned to.
    ValidatorSetVersionMismatch,
    /// This controller is not authorised to mint the requested asset.
    AssetNotMintable,
    /// The verified burn belongs to a different asset.
    AssetMismatch,
}

/// Mint-side configuration and counters.
#[derive(Clone, Copy, PartialEq, Eq, Structural, Debug)]
pub struct MintState {
    /// Authority allowed to change fee settings.
    pub authority: Pubkey,
    /// The destination asset this state mints.
    pub destination_mint: Pubkey,
    /// Fee paid to each validator per mint, in lamports.
    pub fee_per_validator: u64,
    /// The light-client program governing the roster.
    pub light_client_program: Pubkey,
    /// Roster version fee distribution is pinned to.
    pub validator_set_version: u64,
    /// How many burns were minted; informational, saturating.
    pub processed_burns_count: u64,
    /// Total amount minted; informational, saturating.
    pub total_minted: u64,
}

/// A caller-supplied account to receive one validator's fee.
#[derive(Clone, Copy, PartialEq, Eq, Structural, Debug)]
pub struct FeeTarget {
    /// The account's identity; must equal the corresponding validator.
    pub key: Pubkey,
    /// Whether the account can receive funds.
    pub writable: bool,
}

/// One fee payment the mint obliges: `amount` lamports from the minting
/// user to `to`.
#[derive(Clone, Copy, PartialEq, Eq, Structural, Debug)]
pub struct FeeTransfer {
    pub to: Pubkey,
    pub amount: u64,
}

/// Event emitted for every completed mint, the sole externally observable
/// record of it.
#[derive(Clone, Copy, PartialEq, Eq, Structural, Debug)]
pub struct MintedFromBurnV3 {
    pub asset_id: u8,
    pub nonce: u64,
    pub user: Pubkey,
    pub amount: u64,
}

/// Everything a successful mint obliges the platform to do.
#[derive(Clone, Debug)]
pub struct MintOutcome {
    /// Amount to mint to the user: the verified record's amount.
    pub minted_amount: u64,
    /// The fee payments, one per validator, in roster order.
    pub fee_transfers: Vec<FeeTransfer>,
    /// The event to emit.
    pub event: MintedFromBurnV3,
}

/// Whether fee target `i` is present, names validator `i`, and is writable.
pub open spec fn fee_target_ok_at(
    validators: Seq<Pubkey>,
    targets: Seq<FeeTarget>,
    i: int,
) -> bool {
    &&& i < targets.len()
    &&& targets[i].key == validators[i]
    &&& targets[i].writable
}

/// Whether every fee target before `i` is in order.
pub open spec fn fee_targets_ok_to(
    validators: Seq<Pubkey>,
    targets: Seq<FeeTarget>,
    i: int,
) -> bool {
    forall|j: int| 0 <= j < i ==> fee_target_ok_at(validators, targets, j)
}

/// Whether the first fee failure is a missing target account.
pub open spec fn fee_fail_missing(validators: Seq<Pubkey>, targets: Seq<FeeTarget>) -> bool {
    exists|i: int|
        {
            &&& 0 <= i < validators.len()
            &&& fee_targets_ok_to(validators, targets, i)
            &&& i >= targets.len()
        }
}

/// Whether the first fee failure is a target naming the wrong account.
pub open spec fn fee_fail_mismatch(validators: Seq<Pubkey>, targets: Seq<FeeTarget>) -> bool {
    exists|i: int|
        {
            &&& 0 <= i < validators.len()
            &&& fee_targets_ok_to(validators, targets, i)
            &&& i < targets.len()
            &&& targets[i].key != validators[i]
        }
}

/// Whether the first fee failure is a non-writable target.
pub open spec fn fee_fail_not_writable(validators: Seq<Pubkey>, targets: Seq<FeeTarget>) -> bool {
    exists|i: int|
        {
            &&& 0 <= i < validators.len()
            &&& fee_targets_ok_to(validators, targets, i)
            &&& i < targets.len()
            &&& targets[i].key == validators[i]
            &&& !targets[i].writable
        }
}

/// Targets that are all in order exhibit no failure kind.
proof fn lemma_fee_all_ok(validators: Seq<Pubkey>, targets: Seq<FeeTarget>)
    requires
        fee_targets_ok_to(validators, targets, validators.len() as int),
    ensures
        !fee_fail_missing(validators, targets),
        !fee_fail_mismatch(validators, targets),
        !fee_fail_not_writable(validators, targets),
{
    assert_by_contradiction!(!fee_fail_missing(validators, targets), {
        let i = choose|i: int|
            0 <= i < validators.len() && fee_targets_ok_to(validators, targets, i) && i
                >= targets.len();
        assert(fee_target_ok_at(validators, targets, i));
    });
    assert_by_contradiction!(!fee_fail_mismatch(validators, targets), {
        let i = choose|i: int|
            {
                &&& 0 <= i < validators.len()
                &&& fee_targets_ok_to(validators, targets, i)
                &&& i < targets.len()
                &&& targets[i].key != validators[i]
            };
        assert(fee_target_ok_at(validators, targets, i));
    });
    assert_by_contradiction!(!fee_fail_not_writable(validators, targets), {
        let i = choose|i: int|
            {
                &&& 0 <= i < validators.len()
                &&& fee_targets_ok_to(validators, targets, i)
                &&& i < targets.len()
                &&& targets[i].key == validators[i]
                &&& !targets[i].writable
            };
        assert(fee_target_ok_at(validators, targets, i));
    });
}

/// The first failing fee target determines exactly one failure kind.
proof fn lemma_fee_first_failure(validators: Seq<Pubkey>, targets: Seq<FeeTarget>, i: int)
    requires
        0 <= i < validators.len(),
        fee_targets_ok_to(validators, targets, i),
        !fee_target_ok_at(validators, targets, i),
    ensures
        !fee_targets_ok_to(validators, targets, validators.len() as int),
        i >= targets.len() ==> fee_fail_missing(validators, targets) && !fee_fail_mismatch(
            validators,
            targets,
        ) && !fee_fail_not_writable(validators, targets),
        i < targets.len() && targets[i].key != validators[i] ==> !fee_fail_missing(
            validators,
            targets,
        ) && fee_fail_mismatch(validators, targets) && !fee_fail_not_writable(validators, targets),
        i < targets.len() && targets[i].key == validators[i] && !targets[i].writable
            ==> !fee_fail_missing(validators, targets) && !fee_fail_mismatch(validators, targets)
            && fee_fail_not_writable(validators, targets),
{
    assert(fee_targets_ok_to(validators, targets, validators.len() as int) ==> fee_target_ok_at(
        validators,
        targets,
        i,
    ));
    assert forall|i2: int|
        0 <= i2 < validators.len() && fee_targets_ok_to(validators, targets, i2)
            && !fee_target_ok_at(validators, targets, i2) implies i2 == i by {
        if i2 < i {
            assert(fee_target_ok_at(validators, targets, i2));
        } else if i2 > i {
            assert(fee_target_ok_at(validators, targets, i));
        }
    }
    if i >= targets.len() {
        assert(fee_fail_missing(validators, targets));
        assert_by_contradiction!(!fee_fail_mismatch(validators, targets), {
            let i2 = choose|i2: int|
                {
                    &&& 0 <= i2 < validators.len()
                    &&& fee_targets_ok_to(validators, targets, i2)
                    &&& i2 < targets.len()
                    &&& targets[i2].key != validators[i2]
                };
            assert(!fee_target_ok_at(validators, targets, i2));
            assert(i2 == i);
        });
        assert_by_contradiction!(!fee_fail_not_writable(validators, targets), {
            let i2 = choose|i2: int|
                {
                    &&& 0 <= i2 < validators.len()
                    &&& fee_targets_ok_to(validators, targets, i2)
                    &&& i2 < targets.len()
                    &&& targets[i2].key == validators[i2]
                    &&& !targets[i2].writable
                };
            assert(!fee_target_ok_at(validators, targets, i2));
            assert(i2 == i);
        });
    } else if targets[i].key != validators[i] {
        assert(fee_fail_mismatch(validators, targets));
        assert_by_contradiction!(!fee_fail_missing(validators, targets), {
            let i2 = choose|i2: int|
                0 <= i2 < validators.len() && fee_targets_ok_to(validators, targets, i2) && i2
                    >= targets.len();
            assert(!fee_target_ok_at(validators, targets, i2));
            assert(i2 == i);
        });
        assert_by_contradiction!(!fee_fail_not_writable(validators, targets), {
            let i2 = choose|i2: int|
                {
                    &&& 0 <= i2 < validators.len()
                    &&& fee_targets_ok_to(validators, targets, i2)
                    &&& i2 < targets.len()
                    &&& targets[i2].key == validators[i2]
                    &&& !targets[i2].writable
                };
            assert(!fee_target_ok_at(validators, targets, i2));
            assert(i2 == i);
        });
    } else if !targets[i].writable {
        assert(fee_fail_not_writable(validators, targets));
        assert_by_contradiction!(!fee_fail_missing(validators, targets), {
            let i2 = choose|i2: int|
                0 <= i2 < validators.len() && fee_targets_ok_to(validators, targets, i2) && i2
                    >= targets.len();
            assert(!fee_target_ok_at(validators, targets, i2));
            assert(i2 == i);
        });
        assert_by_contradiction!(!fee_fail_mismatch(validators, targets), {
            let i2 = choose|i2: int|
                {
                    &&& 0 <= i2 < validators.len()
                    &&& fee_targets_ok_to(validators, targets, i2)
                    &&& i2 < targets.len()
                    &&& targets[i2].key != validators[i2]
                };
            assert(!fee_target_ok_at(validators, targets, i2));
            assert(i2 == i);
        });
    }
}

/// Check the fee targets against the roster and plan the fee payments: one
/// target per validator, in roster order, each naming its validator and
/// writable. With a zero fee no targets are needed and nothing is paid.
fn plan_fee_transfers(
    validators: &Vec<Pubkey>,
    fee_targets: &Vec<FeeTarget>,
    fee_per_validator: u64,
) -> (r: Result<Vec<FeeTransfer>, MintError>)
    ensures
        r is Ok <==> (fee_per_validator == 0 || fee_targets_ok_to(
            validators@,
            fee_targets@,
            validators@.len() as int,
        )),
        r matches Ok(ts) ==> if fee_per_validator == 0 {
            ts@.len() == 0
        } else {
            ts@.len() == validators@.len() && forall|i: int|
                0 <= i < ts@.len() ==> (#[trigger] ts@[i]) == (FeeTransfer {
                    to: validators@[i],
                    amount: fee_per_validator,
                })
        },
        r == Err::<Vec<FeeTransfer>, MintError>(MintError::MissingValidatorAccount) <==> (
        fee_per_validator > 0 && fee_fail_missing(validators@, fee_targets@)),
        r == Err::<Vec<FeeTransfer>, MintError>(MintError::InvalidValidatorAccount) <==> (
        fee_per_validator > 0 && fee_fail_mismatch(validators@, fee_targets@)),
        r == Err::<Vec<FeeTransfer>, MintError>(MintError::ValidatorAccountNotWritable) <==> (
        fee_per_validator > 0 && fee_fail_not_writable(validators@, fee_targets@)),
        r is Err ==> r == Err::<Vec<FeeTransfer>, MintError>(MintError::MissingValidatorAccount)
            || r == Err::<Vec<FeeTransfer>, MintError>(MintError::InvalidValidatorAccount) || r
            == Err::<Vec<FeeTransfer>, MintError>(MintError::ValidatorAccountNotWritable),
{
    let mut transfers: Vec<FeeTransfer> = Vec::new();
    if fee_per_validator == 0 {
        return Ok(transfers);
    }
    let n = validators.len();
    for i in 0..n
        invariant
            n == validators@.len(),
            fee_per_validator > 0,
            fee_targets_ok_to(validators@, fee_targets@, i as int),
            transfers@.len() == i,
            forall|j: int|
                0 <= j < i ==> (#[trigger] transfers@[j]) == (FeeTransfer {
                    to: validators@[j],
                    amount: fee_per_validator,
                }),
    {
        if i >= fee_targets.len() {
            proof {
                lemma_fee_first_failure(validators@, fee_targets@, i as int);
            }
            return Err(MintError::MissingValidatorAccount);
        }
        if !(fee_targets[i].key == validators[i]) {
            proof {
                lemma_fee_first_failure(validators@, fee_targets@, i as int);
            }
            return Err(MintError::InvalidValidatorAccount);
        }
        if !fee_targets[i].writable {
            proof {
                lemma_fee_first_failure(validators@, fee_targets@, i as int);
            }
            return Err(MintError::ValidatorAccountNotWritable);
        }
        transfers.push(FeeTransfer { to: validators[i], amount: fee_per_validator });
    }
    proof {
        lemma_fee_all_ok(validators@, fee_targets@);
    }
    Ok(transfers)
}

/// Whether a mint is accepted: the right asset for this controller, an
/// unconsumed verified burn under the key, the roster snapshot at the
/// pinned version, no processed record yet, a fee total that fits, and fee
/// targets in order.
pub open spec fn mint_accepted(
    allowed_asset: u8,
    mint_state: MintState,
    validator_set: X1ValidatorSet,
    verified_burns: VerifiedBurnStore,
    processed_burns: ProcessedBurnStore,
    asset_id: u8,
    burn_nonce: u64,
    user: Pubkey,
    fee_targets: Seq<FeeTarget>,
) -> bool {
    &&& asset_id == allowed_asset
    &&& verified_burns.contains_key((asset_id, user, burn_nonce))
    &&& !verified_burns.spec_get((asset_id, user, burn_nonce)).processed
    &&& validator_set.version == mint_state.validator_set_version
    &&& !processed_burns.contains_key((asset_id, user, burn_nonce))
    &&& (mint_state.fee_per_validator as int) * validator_set.validators@.len() <= u64::MAX
    &&& (mint_state.fee_per_validator > 0 ==> fee_targets_ok_to(
        validator_set.validators@,
        fee_targets,
        validator_set.validators@.len() as int,
    ))
}

/// The exact condition under which a mint fails with each error. The
/// conditions are mutually exclusive and, together with acceptance, cover
/// every input.
pub open spec fn mint_error_matches(
    e: MintError,
    allowed_asset: u8,
    mint_state: MintState,
    validator_set: X1ValidatorSet,
    verified_burns: VerifiedBurnStore,
    processed_burns: ProcessedBurnStore,
    asset_id: u8,
    burn_nonce: u64,
    user: Pubkey,
    fee_targets: Seq<FeeTarget>,
) -> bool {
    let k = (asset_id, user, burn_nonce);
    match e {
        MintError::AssetNotMintable => asset_id != allowed_asset,
        MintError::InvalidBurnProof => asset_id == allowed_asset && !verified_burns.contains_key(k),
        MintError::ProofAlreadyProcessed => asset_id == allowed_asset
            && verified_burns.contains_key(k) && verified_burns.spec_get(k).processed,
        MintError::ValidatorSetVersionMismatch => asset_id == allowed_asset
            && verified_burns.contains_key(k) && !verified_burns.spec_get(k).processed
            && validator_set.version != mint_state.validator_set_version,
        MintError::BurnAlreadyProcessed => asset_id == allowed_asset && verified_burns.contains_key(
            k,
        ) && !verified_burns.spec_get(k).processed && validator_set.version
            == mint_state.validator_set_version && processed_burns.contains_key(k),
        MintError::Overflow => asset_id == allowed_asset && verified_burns.contains_key(k)
            && !verified_burns.spec_get(k).processed && validator_set.version
            == mint_state.validator_set_version && !processed_burns.contains_key(k) && (
        mint_state.fee_per_validator as int) * validator_set.validators@.len() > u64::MAX,
        MintError::MissingValidatorAccount => asset_id == allowed_asset
            && verified_burns.contains_key(k) && !verified_burns.spec_get(k).processed
            && validator_set.version == mint_state.validator_set_version
            && !processed_burns.contains_key(k) && (mint_state.fee_per_validator as int)
            * validator_set.validators@.len() <= u64::MAX && mint_state.fee_per_validator > 0
            && fee_fail_missing(validator_set.validators@, fee_targets),
        MintError::InvalidValidatorAccount => asset_id == allowed_asset
            && verified_burns.contains_key(k) && !verified_burns.spec_get(k).processed
            && validator_set.version == mint_state.validator_set_version
            && !processed_burns.contains_key(k) && (mint_state.fee_per_validator as int)
            * validator_set.validators@.len() <= u64::MAX && mint_state.fee_per_validator > 0
            && fee_fail_mismatch(validator_set.validators@, fee_targets),
        MintError::ValidatorAccountNotWritable => asset_id == allowed_asset
            && verified_burns.contains_key(k) && !verified_burns.spec_get(k).processed
            && validator_set.version == mint_state.validator_set_version
            && !processed_burns.contains_key(k) && (mint_state.fee_per_validator as int)
            * validator_set.validators@.len() <= u64::MAX && mint_state.fee_per_validator > 0
            && fee_fail_not_writable(validator_set.validators@, fee_targets),
        _ => false,
    }
}

/// Everything a successful mint changes and reports, phrased over the state
/// before the call.
pub open spec fn mint_success_post(
    out: MintOutcome,
    mint_state_pre: MintState,
    mint_state_post: MintState,
    validator_set: X1ValidatorSet,
    verified_pre: VerifiedBurnStore,
    verified_post: VerifiedBurnStore,
    processed_pre: ProcessedBurnStore,
    processed_post: ProcessedBurnStore,
    asset_id: u8,
    burn_nonce: u64,
    user: Pubkey,
    now: i64,
) -> bool {
    let k = (asset_id, user, burn_nonce);
    let rec = verified_pre.spec_get(k);
    &&& out.minted_amount == rec.amount
    &&& out.event == (MintedFromBurnV3 { asset_id, nonce: burn_nonce, user, amount: rec.amount })
    &&& (mint_state_pre.fee_per_validator == 0 ==> out.fee_transfers@.len() == 0)
    &&& (mint_state_pre.fee_per_validator > 0 ==> out.fee_transfers@.len()
        == validator_set.validators@.len() && forall|i: int|
        0 <= i < out.fee_transfers@.len() ==> (#[trigger] out.fee_transfers@[i]) == (FeeTransfer {
            to: validator_set.validators@[i],
            amount: mint_state_pre.fee_per_validator,
        }))
    &&& forall|k2: (u8, Pubkey, u64)| #[trigger]
        verified_post.contains_key(k2) == verified_pre.contains_key(k2)
    &&& verified_post.spec_get(k) == (VerifiedBurnV3 { processed: true, ..rec })
    &&& forall|k2: (u8, Pubkey, u64)|
        verified_pre.contains_key(k2) && k2 != k ==> #[trigger] verified_post.spec_get(k2)
            == verified_pre.spec_get(k2)
    &&& forall|k2: (u8, Pubkey, u64)| #[trigger]
        processed_post.contains_key(k2) <==> (processed_pre.contains_key(k2) || k2 == k)
    &&& processed_post.spec_get(k) == (ProcessedBurnV3 {
        asset_id,
        nonce: burn_nonce,
        user,
        amount: rec.amount,
        processed_at: now,
    })
    &&& mint_state_post == (MintState {
        processed_burns_count: spec_saturating_add(mint_state_pre.processed_burns_count, 1),
        total_minted: spec_saturating_add(mint_state_pre.total_minted, rec.amount),
        ..mint_state_pre
    })
}

/// Saturating increment used for the informational counters.
pub open spec fn spec_saturating_add(a: u64, b: u64) -> u64 {
    if a + b > u64::MAX {
        u64::MAX
    } else {
        (a + b) as u64
    }
}

/// Mint from a verified burn, exactly once per (asset, user, nonce).
///
/// `allowed_asset` is the one asset this controller instance may mint; the
/// asset-pinned entry points supply it as a constant. The minted amount is
/// sourced exclusively from the verified-burn record. The record is looked
/// up by the composite key built from the request, and its asset, user and
/// nonce fields are that key, so a found record necessarily matches the
/// request's claims: key confusion is ruled out by construction. On success
/// the record's `processed` flag flips, the processed-burn record is
/// created, the counters advance saturatingly and the fee payments are
/// returned; on any failure nothing changes.
pub fn mint_from_verified_burn(
    allowed_asset: u8,
    mint_state: &mut MintState,
    validator_set: &X1ValidatorSet,
    verified_burns: &mut VerifiedBurnStore,
    processed_burns: &mut ProcessedBurnStore,
    asset_id: u8,
    burn_nonce: u64,
    user: Pubkey,
    fee_targets: &Vec<FeeTarget>,
    now: i64,
) -> (r: Result<MintOutcome, MintError>)
    requires
        old(verified_burns).wf(),
        old(processed_burns).wf(),
    ensures
        final(verified_burns).wf(),
        final(processed_burns).wf(),
        r is Err ==> *final(verified_burns) == *old(verified_burns) && *final(processed_burns)
            == *old(processed_burns) && *final(mint_state) == *old(mint_state),
        r is Ok <==> mint_accepted(
            allowed_asset,
            *old(mint_state),
            *validator_set,
            *old(verified_burns),
            *old(processed_burns),
            asset_id,
            burn_nonce,
            user,
            fee_targets@,
        ),
        r matches Ok(out) ==> mint_success_post(
            out,
            *old(mint_state),
            *final(mint_state),
            *validator_set,
            *old(verified_burns),
            *final(verified_burns),
            *old(processed_burns),
            *final(processed_burns),
            asset_id,
            burn_nonce,
            user,
            now,
        ),
        r matches Err(e) ==> mint_error_matches(
            e,
            allowed_asset,
            *old(mint_state),
            *validator_set,
            *old(verified_burns),
            *old(processed_burns),
            asset_id,
            burn_nonce,
            user,
            fee_targets@,
        ),
        r == Err::<MintOutcome, MintError>(MintError::AssetNotMintable) <==> asset_id
            != allowed_asset,
        r == Err::<MintOutcome, MintError>(MintError::InvalidBurnProof) <==> (asset_id
            == allowed_asset && !old(verified_burns).contains_key((asset_id, user, burn_nonce))),
        r == Err::<MintOutcome, MintError>(MintError::ProofAlreadyProcessed) <==> (asset_id
            == allowed_asset && old(verified_burns).contains_key((asset_id, user, burn_nonce))
            && old(verified_burns).spec_get((asset_id, user, burn_nonce)).processed),
        r == Err::<MintOutcome, MintError>(MintError::ValidatorSetVersionMismatch) <==> {
            &&& asset_id == allowed_asset
            &&& old(verified_burns).contains_key((asset_id, user, burn_nonce))
            &&& !old(verified_burns).spec_get((asset_id, user, burn_nonce)).processed
            &&& validator_set.version != old(mint_state).validator_set_version
        },
        r == Err::<MintOutcome, MintError>(MintError::BurnAlreadyProcessed) <==> {
            &&& asset_id == allowed_asset
            &&& old(verified_burns).contains_key((asset_id, user, burn_nonce))
            &&& !old(verified_burns).spec_get((asset_id, user, burn_nonce)).processed
            &&& validator_set.version == old(mint_state).validator_set_version
            &&& old(processed_burns).contains_key((asset_id, user, burn_nonce))
        },
        r == Err::<MintOutcome, MintError>(MintError::Overflow) <==> {
            &&& asset_id == allowed_asset
            &&& old(verified_burns).contains_key((asset_id, user, burn_nonce))
            &&& !old(verified_burns).spec_get((asset_id, user, burn_nonce)).processed
            &&& validator_set.version == old(mint_state).validator_set_version
            &&& !old(processed_burns).contains_key((asset_id, user, burn_nonce))
            &&& (old(mint_state).fee_per_validator as int) * validator_set.validators@.len()
                > u64::MAX
        },
        r == Err::<MintOutcome, MintError>(MintError::MissingValidatorAccount) <==> {
            &&& asset_id == allowed_asset
            &&& old(verified_burns).contains_key((asset_id, user, burn_nonce))
            &&& !old(verified_burns).spec_get((asset_id, user, burn_nonce)).processed
            &&& validator_set.version == old(mint_state).validator_set_version
            &&& !old(processed_burns).contains_key((asset_id, user, burn_nonce))
            &&& (old(mint_state).fee_per_validator as int) * validator_set.validators@.len()
                <= u64::MAX
            &&& old(mint_state).fee_per_validator > 0
            &&& fee_fail_missing(validator_set.validators@, fee_targets@)
        },
        r == Err::<MintOutcome, MintError>(MintError::InvalidValidatorAccount) <==> {
            &&& asset_id == allowed_asset
            &&& old(verified_burns).contains_key((asset_id, user, burn_nonce))
            &&& !old(verified_burns).spec_get((asset_id, user, burn_nonce)).processed
            &&& validator_set.version == old(mint_state).validator_set_version
            &&& !old(processed_burns).contains_key((asset_id, user, burn_nonce))
            &&& (old(mint_state).fee_per_validator as int) * validator_set.validators@.len()
                <= u64::MAX
            &&& old(mint_state).fee_per_validator > 0
            &&& fee_fail_mismatch(validator_set.validators@, fee_targets@)
        },
        r == Err::<MintOutcome, MintError>(MintError::ValidatorAccountNotWritable) <==> {
            &&& asset_id == allowed_asset
            &&& old(verified_burns).contains_key((asset_id, user, burn_nonce))
            &&& !old(verified_burns).spec_get((asset_id, user, burn_nonce)).processed
            &&& validator_set.version == old(mint_state).validator_set_version
            &&& !old(processed_burns).contains_key((asset_id, user, burn_nonce))
            &&& (old(mint_state).fee_per_validator as int) * validator_set.validators@.len()
                <= u64::MAX
            &&& old(mint_state).fee_per_validator > 0
            &&& fee_fail_not_writable(validator_set.validators@, fee_targets@)
        },
{
    if asset_id != allowed_asset {
        return Err(MintError::AssetNotMintable);
    }
    let key = (asset_id, user, burn_nonce);
    let verified = match verified_burns.get(&key) {
        Some(v) => v,
        None => {
            return Err(MintError::InvalidBurnProof);
        },
    };
    if verified.processed {
        return Err(MintError::ProofAlreadyProcessed);
    }
    if validator_set.version != mint_state.validator_set_version {
        return Err(MintError::ValidatorSetVersionMismatch);
    }
    let amount = verified.amount;
    match processed_burns.get(&key) {
        Some(_) => {
            return Err(MintError::BurnAlreadyProcessed);
        },
        None => (),
    }
    let fee_per_validator = mint_state.fee_per_validator;
    let validator_count = validator_set.validators.len() as u64;
    let _total_fee = match fee_per_validator.checked_mul(validator_count) {
        Some(t) => t,
        None => {
            return Err(MintError::Overflow);
        },
    };
    let transfers = match plan_fee_transfers(
        &validator_set.validators,
        fee_targets,
        fee_per_validator,
    ) {
        Ok(ts) => ts,
        Err(e) => {
            return Err(e);
        },
    };
    let consumed = VerifiedBurnV3 { processed: true, ..verified };
    let replaced = verified_burns.replace(consumed);
    proof {
        assert(replaced);
    }
    let processed_record = ProcessedBurnV3 {
        asset_id,
        nonce: burn_nonce,
        user,
        amount,
        processed_at: now,
    };
    let created = processed_burns.create(processed_record);
    proof {
        assert(created);
    }
    mint_state.processed_burns_count = mint_state.processed_burns_count.saturating_add(1);
    mint_state.total_minted = mint_state.total_minted.saturating_add(amount);
    let event = MintedFromBurnV3 { asset_id, nonce: burn_nonce, user, amount };
    Ok(MintOutcome { minted_amount: amount, fee_transfers: transfers, event })
}

} // verus!
