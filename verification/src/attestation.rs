//! Trusted-signer attestation verification.
//!
//! A user who burned on the source ledger collects signatures from the
//! attesting validators and submits them in one batch. The batch is checked
//! against the current roster: the pinned roster version must be current,
//! no validator may appear twice, every signer must be a roster member, and
//! at least the threshold of signatures must be present. On success a
//! verified-burn record is created; creating it a second time for the same
//! (asset, user, nonce) fails with a replay error.
//!
//! Every signed message is the SHA-256 digest of a domain-separated,
//! asset-bound preimage, so a signature produced for one asset, one roster
//! version or one domain can never validate a request for another.

use vstd::prelude::*;
use vstd::assert_by_contradiction;
use vstd::bytes::{lemma_auto_spec_u64_to_from_le_bytes, spec_u64_from_le_bytes,
    spec_u64_to_le_bytes, u64_to_le_bytes};
use crate::byteseq::append_bytes;
use crate::errors::LightClientError;
use crate::hashes::{sha256, sha256_of};
use crate::pubkey::{lemma_pubkey_bytes_injective, pubkey_bytes, Pubkey};
use crate::store::{VerifiedBurnStore, VerifiedBurnV3};
use crate::validator_set::{dup_at, X1ValidatorSet};

verus! {

/// The permanent asset namespace. Identifiers are never reused or
/// reassigned.
#[derive(Clone, Copy, PartialEq, Eq, Structural, Debug)]
pub enum Asset {
    XENCAT,
    DGN,
}

/// The permanent identifier of the XENCAT asset.
pub const ASSET_ID_XENCAT: u8 = 1;

/// The permanent identifier of the DGN asset.
pub const ASSET_ID_DGN: u8 = 2;

/// Whether an identifier is in the asset namespace.
pub open spec fn asset_known(asset_id: u8) -> bool {
    asset_id == ASSET_ID_XENCAT || asset_id == ASSET_ID_DGN
}

impl Asset {
    /// Resolve an asset identifier; unknown identifiers are rejected.
    pub fn from_u8(asset_id: u8) -> (r: Result<Asset, LightClientError>)
        ensures
            asset_id == ASSET_ID_XENCAT ==> r == Ok::<Asset, LightClientError>(Asset::XENCAT),
            asset_id == ASSET_ID_DGN ==> r == Ok::<Asset, LightClientError>(Asset::DGN),
            !asset_known(asset_id) ==> r == Err::<Asset, LightClientError>(
                LightClientError::InvalidAsset,
            ),
            r is Ok <==> asset_known(asset_id),
    {
        if asset_id == ASSET_ID_XENCAT {
            Ok(Asset::XENCAT)
        } else if asset_id == ASSET_ID_DGN {
            Ok(Asset::DGN)
        } else {
            Err(LightClientError::InvalidAsset)
        }
    }

    /// The asset's permanent identifier.
    pub fn id(self) -> (r: u8)
        ensures
            self == Asset::XENCAT ==> r == ASSET_ID_XENCAT,
            self == Asset::DGN ==> r == ASSET_ID_DGN,
    {
        match self {
            Asset::XENCAT => ASSET_ID_XENCAT,
            Asset::DGN => ASSET_ID_DGN,
        }
    }
}

/// One validator's signed claim that a burn occurred.
#[derive(Clone, Debug)]
pub struct ValidatorAttestation {
    /// Which validator signed.
    pub validator_pubkey: Pubkey,
    /// Their signature over the attestation message (64 bytes when
    /// well-formed).
    pub signature: Vec<u8>,
    /// When they verified the burn (unix timestamp).
    pub timestamp: i64,
}

/// A burn attestation request: the burn's claims and the validators'
/// signatures over them.
#[derive(Clone, Debug)]
pub struct BurnAttestationData {
    /// Asset namespace of the burn.
    pub asset_id: u8,
    /// Burn nonce from the source ledger.
    pub burn_nonce: u64,
    /// User who burned.
    pub user: Pubkey,
    /// Amount burned.
    pub amount: u64,
    /// Roster version these attestations were signed under; must equal the
    /// current version.
    pub validator_set_version: u64,
    /// The validators' signatures.
    pub attestations: Vec<ValidatorAttestation>,
}

/// The ASCII bytes of the domain separator, `XENCAT_X1_BRIDGE_V1`.
pub open spec fn domain_separator_bytes() -> Seq<u8> {
    seq![88u8, 69u8, 78u8, 67u8, 65u8, 84u8, 95u8, 88u8, 49u8, 95u8, 66u8, 82u8, 73u8, 68u8, 71u8,
        69u8, 95u8, 86u8, 49u8]
}

/// The ASCII bytes of the domain separator.
fn domain_separator() -> (r: Vec<u8>)
    ensures
        r@ == domain_separator_bytes(),
{
    let mut d: Vec<u8> = Vec::new();
    d.push(88u8);
    d.push(69u8);
    d.push(78u8);
    d.push(67u8);
    d.push(65u8);
    d.push(84u8);
    d.push(95u8);
    d.push(88u8);
    d.push(49u8);
    d.push(95u8);
    d.push(66u8);
    d.push(82u8);
    d.push(73u8);
    d.push(68u8);
    d.push(71u8);
    d.push(69u8);
    d.push(95u8);
    d.push(86u8);
    d.push(49u8);
    proof {
        assert(d@ =~= domain_separator_bytes());
    }
    d
}

/// The bytes a validator signs for a pre-asset attestation, before hashing:
/// domain, roster version, nonce, amount, user.
pub open spec fn attestation_message_preimage(
    burn_nonce: u64,
    user: Pubkey,
    amount: u64,
    validator_set_version: u64,
) -> Seq<u8> {
    domain_separator_bytes() + spec_u64_to_le_bytes(validator_set_version) + spec_u64_to_le_bytes(
        burn_nonce,
    ) + spec_u64_to_le_bytes(amount) + pubkey_bytes(user)
}

/// The bytes a validator signs for an asset-aware attestation, before
/// hashing: domain, asset, roster version, nonce, amount, user. The asset
/// identifier is embedded so a signature for one asset can never validate a
/// request for another.
pub open spec fn attestation_message_v3_preimage(
    asset_id: u8,
    burn_nonce: u64,
    user: Pubkey,
    amount: u64,
    validator_set_version: u64,
) -> Seq<u8> {
    domain_separator_bytes() + seq![asset_id] + spec_u64_to_le_bytes(validator_set_version)
        + spec_u64_to_le_bytes(burn_nonce) + spec_u64_to_le_bytes(amount) + pubkey_bytes(user)
}

/// Build the pre-asset attestation message: the SHA-256 digest of its
/// preimage.
pub fn create_attestation_message(
    burn_nonce: u64,
    user: Pubkey,
    amount: u64,
    validator_set_version: u64,
) -> (r: Vec<u8>)
    ensures
        r@ == sha256_of(
            attestation_message_preimage(burn_nonce, user, amount, validator_set_version),
        ),
        r@.len() == 32,
{
    let mut message_data = domain_separator();
    let mut version_bytes = u64_to_le_bytes(validator_set_version);
    message_data.append(&mut version_bytes);
    let mut nonce_bytes = u64_to_le_bytes(burn_nonce);
    message_data.append(&mut nonce_bytes);
    let mut amount_bytes = u64_to_le_bytes(amount);
    message_data.append(&mut amount_bytes);
    let user_bytes = user.to_bytes();
    append_bytes(&mut message_data, &user_bytes);
    proof {
        assert(message_data@ =~= attestation_message_preimage(
            burn_nonce,
            user,
            amount,
            validator_set_version,
        ));
    }
    sha256(message_data.as_slice())
}

/// Build the asset-aware attestation message: the SHA-256 digest of its
/// preimage.
pub fn create_attestation_message_v3(
    asset_id: u8,
    burn_nonce: u64,
    user: Pubkey,
    amount: u64,
    validator_set_version: u64,
) -> (r: Vec<u8>)
    ensures
        r@ == sha256_of(
            attestation_message_v3_preimage(
                asset_id,
                burn_nonce,
                user,
                amount,
                validator_set_version,
            ),
        ),
        r@.len() == 32,
{
    let mut message_data = domain_separator();
    message_data.push(asset_id);
    let mut version_bytes = u64_to_le_bytes(validator_set_version);
    message_data.append(&mut version_bytes);
    let mut nonce_bytes = u64_to_le_bytes(burn_nonce);
    message_data.append(&mut nonce_bytes);
    let mut amount_bytes = u64_to_le_bytes(amount);
    message_data.append(&mut amount_bytes);
    let user_bytes = user.to_bytes();
    append_bytes(&mut message_data, &user_bytes);
    proof {
        assert(message_data@ =~= attestation_message_v3_preimage(
            asset_id,
            burn_nonce,
            user,
            amount,
            validator_set_version,
        ));
    }
    sha256(message_data.as_slice())
}

/// Messages for two different assets differ already in their preimages,
/// even with identical nonce, user, amount and version: the asset byte sits
/// at a fixed position. Cross-asset signature transfer would therefore need
/// a SHA-256 collision.
pub proof fn lemma_attestation_message_v3_asset_binding(
    asset1: u8,
    asset2: u8,
    burn_nonce: u64,
    user: Pubkey,
    amount: u64,
    version: u64,
)
    requires
        asset1 != asset2,
    ensures
        attestation_message_v3_preimage(asset1, burn_nonce, user, amount, version)
            != attestation_message_v3_preimage(asset2, burn_nonce, user, amount, version),
{
    let p1 = attestation_message_v3_preimage(asset1, burn_nonce, user, amount, version);
    let p2 = attestation_message_v3_preimage(asset2, burn_nonce, user, amount, version);
    assert(p1[19] == asset1);
    assert(p2[19] == asset2);
}

/// The asset-aware preimage determines every field: two equal preimages
/// come from equal asset, version, nonce, amount and user. Changing any one
/// field changes the preimage.
pub proof fn lemma_attestation_message_v3_preimage_injective(
    asset1: u8,
    nonce1: u64,
    user1: Pubkey,
    amount1: u64,
    version1: u64,
    asset2: u8,
    nonce2: u64,
    user2: Pubkey,
    amount2: u64,
    version2: u64,
)
    requires
        attestation_message_v3_preimage(asset1, nonce1, user1, amount1, version1)
            == attestation_message_v3_preimage(asset2, nonce2, user2, amount2, version2),
    ensures
        asset1 == asset2,
        nonce1 == nonce2,
        user1 == user2,
        amount1 == amount2,
        version1 == version2,
{
    lemma_auto_spec_u64_to_from_le_bytes();
    let p1 = attestation_message_v3_preimage(asset1, nonce1, user1, amount1, version1);
    let p2 = attestation_message_v3_preimage(asset2, nonce2, user2, amount2, version2);
    assert(p1[19] == asset1 && p2[19] == asset2);
    assert(spec_u64_to_le_bytes(version1) =~= p1.subrange(20, 28));
    assert(spec_u64_to_le_bytes(version2) =~= p2.subrange(20, 28));
    assert(version1 == spec_u64_from_le_bytes(spec_u64_to_le_bytes(version1)));
    assert(version2 == spec_u64_from_le_bytes(spec_u64_to_le_bytes(version2)));
    assert(spec_u64_to_le_bytes(nonce1) =~= p1.subrange(28, 36));
    assert(spec_u64_to_le_bytes(nonce2) =~= p2.subrange(28, 36));
    assert(nonce1 == spec_u64_from_le_bytes(spec_u64_to_le_bytes(nonce1)));
    assert(nonce2 == spec_u64_from_le_bytes(spec_u64_to_le_bytes(nonce2)));
    assert(spec_u64_to_le_bytes(amount1) =~= p1.subrange(36, 44));
    assert(spec_u64_to_le_bytes(amount2) =~= p2.subrange(36, 44));
    assert(amount1 == spec_u64_from_le_bytes(spec_u64_to_le_bytes(amount1)));
    assert(amount2 == spec_u64_from_le_bytes(spec_u64_to_le_bytes(amount2)));
    assert(pubkey_bytes(user1) =~= p1.subrange(44, 76));
    assert(pubkey_bytes(user2) =~= p2.subrange(44, 76));
    lemma_pubkey_bytes_injective(user1, user2);
}

/// The attesting validators' public keys, in batch order.
pub open spec fn attestation_pubkeys(s: Seq<ValidatorAttestation>) -> Seq<Pubkey> {
    Seq::new(s.len(), |i: int| s[i].validator_pubkey)
}

/// Whether attestation `i` passes every per-item check: no earlier
/// attestation by the same validator, roster membership, 64-byte signature.
pub open spec fn attestation_ok_at(
    s: Seq<ValidatorAttestation>,
    roster: Seq<Pubkey>,
    i: int,
) -> bool {
    &&& !dup_at(attestation_pubkeys(s), i)
    &&& roster.contains(s[i].validator_pubkey)
    &&& s[i].signature@.len() == 64
}

/// Whether every attestation before `i` passes its per-item checks.
pub open spec fn attestations_ok_to(
    s: Seq<ValidatorAttestation>,
    roster: Seq<Pubkey>,
    i: int,
) -> bool {
    forall|j: int| 0 <= j < i ==> attestation_ok_at(s, roster, j)
}

/// Whether the batch passes every per-item check and reaches the threshold.
pub open spec fn attestations_accepted(
    s: Seq<ValidatorAttestation>,
    roster: Seq<Pubkey>,
    threshold: u8,
) -> bool {
    &&& attestations_ok_to(s, roster, s.len() as int)
    &&& s.len() >= threshold as int
}

/// Whether the first failing attestation is a duplicate signer.
pub open spec fn attestations_fail_dup(
    s: Seq<ValidatorAttestation>,
    roster: Seq<Pubkey>,
) -> bool {
    exists|i: int|
        {
            &&& 0 <= i < s.len()
            &&& attestations_ok_to(s, roster, i)
            &&& dup_at(attestation_pubkeys(s), i)
        }
}

/// Whether the first failing attestation names a signer outside the roster.
pub open spec fn attestations_fail_unknown(
    s: Seq<ValidatorAttestation>,
    roster: Seq<Pubkey>,
) -> bool {
    exists|i: int|
        {
            &&& 0 <= i < s.len()
            &&& attestations_ok_to(s, roster, i)
            &&& !dup_at(attestation_pubkeys(s), i)
            &&& !roster.contains(s[i].validator_pubkey)
        }
}

/// Whether the first failing attestation carries a malformed signature.
pub open spec fn attestations_fail_sig(s: Seq<ValidatorAttestation>, roster: Seq<Pubkey>) -> bool {
    exists|i: int|
        {
            &&& 0 <= i < s.len()
            &&& attestations_ok_to(s, roster, i)
            &&& !dup_at(attestation_pubkeys(s), i)
            &&& roster.contains(s[i].validator_pubkey)
            &&& s[i].signature@.len() != 64
        }
}

/// A batch whose every attestation passes exhibits none of the failure
/// kinds.
proof fn lemma_attestations_all_ok(s: Seq<ValidatorAttestation>, roster: Seq<Pubkey>)
    requires
        attestations_ok_to(s, roster, s.len() as int),
    ensures
        !attestations_fail_dup(s, roster),
        !attestations_fail_unknown(s, roster),
        !attestations_fail_sig(s, roster),
{
    assert_by_contradiction!(!attestations_fail_dup(s, roster), {
        let i = choose|i: int|
            0 <= i < s.len() && attestations_ok_to(s, roster, i) && dup_at(
                attestation_pubkeys(s),
                i,
            );
        assert(attestation_ok_at(s, roster, i));
    });
    assert_by_contradiction!(!attestations_fail_unknown(s, roster), {
        let i = choose|i: int|
            {
                &&& 0 <= i < s.len()
                &&& attestations_ok_to(s, roster, i)
                &&& !dup_at(attestation_pubkeys(s), i)
                &&& !roster.contains(s[i].validator_pubkey)
            };
        assert(attestation_ok_at(s, roster, i));
    });
    assert_by_contradiction!(!attestations_fail_sig(s, roster), {
        let i = choose|i: int|
            {
                &&& 0 <= i < s.len()
                &&& attestations_ok_to(s, roster, i)
                &&& !dup_at(attestation_pubkeys(s), i)
                &&& roster.contains(s[i].validator_pubkey)
                &&& s[i].signature@.len() != 64
            };
        assert(attestation_ok_at(s, roster, i));
    });
}

/// A batch whose first failing attestation is `i` fails as a whole, and
/// exactly the kind of attestation `i`'s failure holds of the batch.
proof fn lemma_attestations_first_failure(
    s: Seq<ValidatorAttestation>,
    roster: Seq<Pubkey>,
    i: int,
)
    requires
        0 <= i < s.len(),
        attestations_ok_to(s, roster, i),
        !attestation_ok_at(s, roster, i),
    ensures
        !attestations_ok_to(s, roster, s.len() as int),
        dup_at(attestation_pubkeys(s), i) ==> attestations_fail_dup(s, roster)
            && !attestations_fail_unknown(s, roster) && !attestations_fail_sig(s, roster),
        !dup_at(attestation_pubkeys(s), i) && !roster.contains(s[i].validator_pubkey)
            ==> !attestations_fail_dup(s, roster) && attestations_fail_unknown(s, roster)
            && !attestations_fail_sig(s, roster),
        !dup_at(attestation_pubkeys(s), i) && roster.contains(s[i].validator_pubkey) && s[i]
            .signature@.len() != 64 ==> !attestations_fail_dup(s, roster)
            && !attestations_fail_unknown(s, roster) && attestations_fail_sig(s, roster),
{
    assert(attestations_ok_to(s, roster, s.len() as int) ==> attestation_ok_at(s, roster, i));
    assert forall|i2: int|
        0 <= i2 < s.len() && attestations_ok_to(s, roster, i2) && !attestation_ok_at(
            s,
            roster,
            i2,
        ) implies i2 == i by {
        if i2 < i {
            assert(attestation_ok_at(s, roster, i2));
        } else if i2 > i {
            assert(attestation_ok_at(s, roster, i));
        }
    }
    if dup_at(attestation_pubkeys(s), i) {
        assert(attestations_fail_dup(s, roster));
        assert_by_contradiction!(!attestations_fail_unknown(s, roster), {
            let i2 = choose|i2: int|
                {
                    &&& 0 <= i2 < s.len()
                    &&& attestations_ok_to(s, roster, i2)
                    &&& !dup_at(attestation_pubkeys(s), i2)
                    &&& !roster.contains(s[i2].validator_pubkey)
                };
            assert(!attestation_ok_at(s, roster, i2));
            assert(i2 == i);
        });
        assert_by_contradiction!(!attestations_fail_sig(s, roster), {
            let i2 = choose|i2: int|
                {
                    &&& 0 <= i2 < s.len()
                    &&& attestations_ok_to(s, roster, i2)
                    &&& !dup_at(attestation_pubkeys(s), i2)
                    &&& roster.contains(s[i2].validator_pubkey)
                    &&& s[i2].signature@.len() != 64
                };
            assert(!attestation_ok_at(s, roster, i2));
            assert(i2 == i);
        });
    } else if !roster.contains(s[i].validator_pubkey) {
        assert(attestations_fail_unknown(s, roster));
        assert_by_contradiction!(!attestations_fail_dup(s, roster), {
            let i2 = choose|i2: int|
                0 <= i2 < s.len() && attestations_ok_to(s, roster, i2) && dup_at(
                    attestation_pubkeys(s),
                    i2,
                );
            assert(!attestation_ok_at(s, roster, i2));
            assert(i2 == i);
        });
        assert_by_contradiction!(!attestations_fail_sig(s, roster), {
            let i2 = choose|i2: int|
                {
                    &&& 0 <= i2 < s.len()
                    &&& attestations_ok_to(s, roster, i2)
                    &&& !dup_at(attestation_pubkeys(s), i2)
                    &&& roster.contains(s[i2].validator_pubkey)
                    &&& s[i2].signature@.len() != 64
                };
            assert(!attestation_ok_at(s, roster, i2));
            assert(i2 == i);
        });
    } else if s[i].signature@.len() != 64 {
        assert(attestations_fail_sig(s, roster));
        assert_by_contradiction!(!attestations_fail_dup(s, roster), {
            let i2 = choose|i2: int|
                0 <= i2 < s.len() && attestations_ok_to(s, roster, i2) && dup_at(
                    attestation_pubkeys(s),
                    i2,
                );
            assert(!attestation_ok_at(s, roster, i2));
            assert(i2 == i);
        });
        assert_by_contradiction!(!attestations_fail_unknown(s, roster), {
            let i2 = choose|i2: int|
                {
                    &&& 0 <= i2 < s.len()
                    &&& attestations_ok_to(s, roster, i2)
                    &&& !dup_at(attestation_pubkeys(s), i2)
                    &&& !roster.contains(s[i2].validator_pubkey)
                };
            assert(!attestation_ok_at(s, roster, i2));
            assert(i2 == i);
        });
    }
}

/// Whether a submission is accepted: parameters match the attestation, the
/// asset is known, the pinned roster version is current, the batch passes,
/// and no verified burn with this key exists yet.
pub open spec fn submit_accepted(
    validator_set: X1ValidatorSet,
    store: VerifiedBurnStore,
    asset_id: u8,
    burn_nonce: u64,
    user: Pubkey,
    attestation: BurnAttestationData,
) -> bool {
    &&& attestation.asset_id == asset_id
    &&& attestation.burn_nonce == burn_nonce
    &&& asset_known(asset_id)
    &&& attestation.validator_set_version == validator_set.version
    &&& attestations_accepted(
        attestation.attestations@,
        validator_set.validators@,
        validator_set.threshold,
    )
    &&& !store.contains_key((asset_id, user, burn_nonce))
}

/// Verify an asset-aware burn attestation batch and record the verified
/// burn.
///
/// `user` is the submitting user, who becomes the record's key holder;
/// `now` is the current unix timestamp. On any failure nothing changes and
/// the error names the reason; the record's creation is itself the replay
/// guard.
pub fn submit_burn_attestation_v3(
    validator_set: &X1ValidatorSet,
    verified_burns: &mut VerifiedBurnStore,
    asset_id: u8,
    burn_nonce: u64,
    user: Pubkey,
    attestation: &BurnAttestationData,
    now: i64,
) -> (r: Result<VerifiedBurnV3, LightClientError>)
    requires
        validator_set.wf(),
        old(verified_burns).wf(),
    ensures
        final(verified_burns).wf(),
        r is Err ==> *final(verified_burns) == *old(verified_burns),
        r is Ok <==> submit_accepted(
            *validator_set,
            *old(verified_burns),
            asset_id,
            burn_nonce,
            user,
            *attestation,
        ),
        r matches Ok(v) ==> {
            &&& v == (VerifiedBurnV3 {
                asset_id,
                burn_nonce,
                user,
                amount: attestation.amount,
                verified_at: now,
                processed: false,
            })
            &&& final(verified_burns).records@ == old(verified_burns).records@.push(v)
            &&& forall|k: (u8, Pubkey, u64)| #[trigger]
                final(verified_burns).contains_key(k) <==> (old(verified_burns).contains_key(k) || k
                    == (asset_id, user, burn_nonce))
            &&& final(verified_burns).spec_get((asset_id, user, burn_nonce)) == v
        },
        r == Err::<VerifiedBurnV3, LightClientError>(LightClientError::InvalidAttestation) <==> (
        attestation.asset_id != asset_id || (attestation.asset_id == asset_id
            && attestation.burn_nonce != burn_nonce)),
        r == Err::<VerifiedBurnV3, LightClientError>(LightClientError::InvalidAsset) <==> {
            &&& attestation.asset_id == asset_id
            &&& attestation.burn_nonce == burn_nonce
            &&& !asset_known(asset_id)
        },
        r == Err::<VerifiedBurnV3, LightClientError>(LightClientError::InvalidValidatorSetVersion)
            <==> {
            &&& attestation.asset_id == asset_id
            &&& attestation.burn_nonce == burn_nonce
            &&& asset_known(asset_id)
            &&& attestation.validator_set_version != validator_set.version
        },
        r == Err::<VerifiedBurnV3, LightClientError>(LightClientError::DuplicateValidator) <==> {
            &&& attestation.asset_id == asset_id
            &&& attestation.burn_nonce == burn_nonce
            &&& asset_known(asset_id)
            &&& attestation.validator_set_version == validator_set.version
            &&& attestations_fail_dup(attestation.attestations@, validator_set.validators@)
        },
        r == Err::<VerifiedBurnV3, LightClientError>(LightClientError::UnknownValidator) <==> {
            &&& attestation.asset_id == asset_id
            &&& attestation.burn_nonce == burn_nonce
            &&& asset_known(asset_id)
            &&& attestation.validator_set_version == validator_set.version
            &&& attestations_fail_unknown(attestation.attestations@, validator_set.validators@)
        },
        r == Err::<VerifiedBurnV3, LightClientError>(LightClientError::InvalidSignatureFormat) <==> {
            &&& attestation.asset_id == asset_id
            &&& attestation.burn_nonce == burn_nonce
            &&& asset_known(asset_id)
            &&& attestation.validator_set_version == validator_set.version
            &&& attestations_fail_sig(attestation.attestations@, validator_set.validators@)
        },
        r == Err::<VerifiedBurnV3, LightClientError>(LightClientError::InsufficientAttestations)
            <==> {
            &&& attestation.asset_id == asset_id
            &&& attestation.burn_nonce == burn_nonce
            &&& asset_known(asset_id)
            &&& attestation.validator_set_version == validator_set.version
            &&& attestations_ok_to(
                attestation.attestations@,
                validator_set.validators@,
                attestation.attestations@.len() as int,
            )
            &&& attestation.attestations@.len() < validator_set.threshold as int
        },
        r == Err::<VerifiedBurnV3, LightClientError>(LightClientError::BurnAlreadyVerified) <==> {
            &&& attestation.asset_id == asset_id
            &&& attestation.burn_nonce == burn_nonce
            &&& asset_known(asset_id)
            &&& attestation.validator_set_version == validator_set.version
            &&& attestations_accepted(
                attestation.attestations@,
                validator_set.validators@,
                validator_set.threshold,
            )
            &&& old(verified_burns).contains_key((asset_id, user, burn_nonce))
        },
{
    let ghost s = attestation.attestations@;
    let ghost roster = validator_set.validators@;
    if attestation.asset_id != asset_id {
        return Err(LightClientError::InvalidAttestation);
    }
    if attestation.burn_nonce != burn_nonce {
        return Err(LightClientError::InvalidAttestation);
    }
    let _asset = match Asset::from_u8(attestation.asset_id) {
        Ok(a) => a,
        Err(e) => {
            return Err(e);
        },
    };
    if attestation.validator_set_version != validator_set.version {
        return Err(LightClientError::InvalidValidatorSetVersion);
    }
    let message = create_attestation_message_v3(
        attestation.asset_id,
        attestation.burn_nonce,
        attestation.user,
        attestation.amount,
        attestation.validator_set_version,
    );
    let mut valid_count: usize = 0;
    let n = attestation.attestations.len();
    for i in 0..n
        invariant
            n == s.len(),
            s == attestation.attestations@,
            roster == validator_set.validators@,
            message@.len() == 32,
            valid_count == i,
            attestations_ok_to(s, roster, i as int),
            *verified_burns == *old(verified_burns),
            old(verified_burns).wf(),
            attestation.asset_id == asset_id,
            attestation.burn_nonce == burn_nonce,
            asset_known(asset_id),
            attestation.validator_set_version == validator_set.version,
    {
        proof {
            assert(forall|k: int|
                0 <= k < n ==> attestation_pubkeys(s)[k] == s[k].validator_pubkey);
        }
        let mut is_dup = false;
        for j in 0..i
            invariant
                0 <= i < n == s.len(),
                s == attestation.attestations@,
                forall|k: int| 0 <= k < n ==> attestation_pubkeys(s)[k] == s[k].validator_pubkey,
                is_dup <==> exists|k: int|
                    0 <= k < j && attestation_pubkeys(s)[k] == attestation_pubkeys(s)[i as int],
        {
            if attestation.attestations[j].validator_pubkey
                == attestation.attestations[i].validator_pubkey {
                is_dup = true;
                assert(attestation_pubkeys(s)[j as int] == attestation_pubkeys(s)[i as int]);
            }
        }
        proof {
            assert(is_dup <==> dup_at(attestation_pubkeys(s), i as int));
        }
        if is_dup {
            proof {
                lemma_attestations_first_failure(s, roster, i as int);
            }
            return Err(LightClientError::DuplicateValidator);
        }
        if !crate::validator_set::roster_contains(
            &validator_set.validators,
            &attestation.attestations[i].validator_pubkey,
        ) {
            proof {
                lemma_attestations_first_failure(s, roster, i as int);
            }
            return Err(LightClientError::UnknownValidator);
        }
        match crate::validator_set::verify_ed25519_signature(
            &attestation.attestations[i].validator_pubkey,
            &message,
            &attestation.attestations[i].signature,
        ) {
            Ok(()) => (),
            Err(_) => {
                proof {
                    lemma_attestations_first_failure(s, roster, i as int);
                }
                return Err(LightClientError::InvalidSignatureFormat);
            },
        }
        proof {
            assert(attestation_ok_at(s, roster, i as int));
        }
        valid_count = valid_count + 1;
    }
    proof {
        lemma_attestations_all_ok(s, roster);
    }
    if valid_count < validator_set.threshold as usize {
        return Err(LightClientError::InsufficientAttestations);
    }
    let record = VerifiedBurnV3 {
        asset_id,
        burn_nonce,
        user,
        amount: attestation.amount,
        verified_at: now,
        processed: false,
    };
    let created = verified_burns.create(record);
    if !created {
        return Err(LightClientError::BurnAlreadyVerified);
    }
    Ok(record)
}

/// A verified burn can be recorded at most once per (asset, user, nonce):
/// after one submission succeeds, an identical submission against the
/// updated store is rejected as a replay, whatever its attestations.
pub proof fn lemma_submit_replay_after_success(
    validator_set: X1ValidatorSet,
    pre: VerifiedBurnStore,
    post: VerifiedBurnStore,
    asset_id: u8,
    burn_nonce: u64,
    user: Pubkey,
    attestation: BurnAttestationData,
)
    requires
        submit_accepted(validator_set, pre, asset_id, burn_nonce, user, attestation),
        forall|k: (u8, Pubkey, u64)| #[trigger]
            post.contains_key(k) <==> (pre.contains_key(k) || k == (asset_id, user, burn_nonce)),
    ensures
        !submit_accepted(validator_set, post, asset_id, burn_nonce, user, attestation),
        post.contains_key((asset_id, user, burn_nonce)),
{
    assert(post.contains_key((asset_id, user, burn_nonce)));
}

/// An attestation batch pinned to a version other than the roster's current
/// one is rejected, whatever its signatures: after a rotation from version
/// `v`, a batch still pinned to `v` cannot pass the verifier.
pub proof fn lemma_stale_version_rejected(
    validator_set: X1ValidatorSet,
    store: VerifiedBurnStore,
    asset_id: u8,
    burn_nonce: u64,
    user: Pubkey,
    attestation: BurnAttestationData,
)
    requires
        attestation.validator_set_version != validator_set.version,
    ensures
        !submit_accepted(validator_set, store, asset_id, burn_nonce, user, attestation),
{
}

} // verus!
