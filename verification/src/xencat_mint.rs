//! The XENCAT mint controller.
//!
//! This controller mints only the XENCAT asset. The asset identifier is
//! pinned here permanently: identifiers are never reused or reassigned, so a
//! burn of any other asset can never mint XENCAT.

use vstd::prelude::*;
use crate::attestation::ASSET_ID_XENCAT;
use crate::mint::{mint_accepted, mint_error_matches, mint_from_verified_burn, mint_success_post,
    FeeTarget, MintError, MintOutcome, MintState};
use crate::pubkey::Pubkey;
use crate::store::{ProcessedBurnStore, VerifiedBurnStore};
use crate::validator_set::X1ValidatorSet;

verus! {

/// Mint XENCAT from a verified burn; rejects every other asset.
pub fn mint_from_burn_v3(
    mint_state: &mut MintState,
    validator_set: &X1ValidatorSet,
    verified_burns: &mut VerifiedBurnStore,
    processed_burns: &mut ProcessedBurnStore,
    asset_id: u8,
    burn_nonce: u64,
    user: Pubkey,
    fee_targets: &Vec<FeeTarget>,
    now: i64,
) -> (r: Result<MintOutcome, MintError>)
    requires
        old(verified_burns).wf(),
        old(processed_burns).wf(),
    ensures
        final(verified_burns).wf(),
        final(processed_burns).wf(),
        r is Err ==> *final(verified_burns) == *old(verified_burns) && *final(processed_burns)
            == *old(processed_burns) && *final(mint_state) == *old(mint_state),
        r is Ok <==> mint_accepted(
            ASSET_ID_XENCAT,
            *old(mint_state),
            *validator_set,
            *old(verified_burns),
            *old(processed_burns),
            asset_id,
            burn_nonce,
            user,
            fee_targets@,
        ),
        r matches Ok(out) ==> mint_success_post(
            out,
            *old(mint_state),
            *final(mint_state),
            *validator_set,
            *old(verified_burns),
            *final(verified_burns),
            *old(processed_burns),
            *final(processed_burns),
            asset_id,
            burn_nonce,
            user,
            now,
        ),
        r matches Err(e) ==> mint_error_matches(
            e,
            ASSET_ID_XENCAT,
            *old(mint_state),
            *validator_set,
            *old(verified_burns),
            *old(processed_burns),
            asset_id,
            burn_nonce,
            user,
            fee_targets@,
        ),
{
    mint_from_verified_burn(
        ASSET_ID_XENCAT,
        mint_state,
        validator_set,
        verified_burns,
        processed_burns,
        asset_id,
        burn_nonce,
        user,
        fee_targets,
        now,
    )
}

} // verus!
