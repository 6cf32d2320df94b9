//! The threshold-governed attesting validator roster.
//!
//! The roster carries a version that increases on every rotation. Every
//! attestation batch pins the version it was signed under, so a rotation
//! invalidates all attestations signed against the superseded roster without
//! explicit revocation.
//!
//! Trust model: attesting validators are trusted to only sign legitimate
//! payloads; the roster enforces membership, deduplication and the signature
//! count threshold, and validates signature format. Byzantine fault
//! tolerance comes from the threshold, not from on-ledger signature
//! cryptography.

use vstd::prelude::*;
use vstd::assert_by_contradiction;
use vstd::bytes::{spec_u64_to_le_bytes, u64_to_le_bytes};
use crate::byteseq::append_bytes;
use crate::errors::LightClientError;
use crate::hashes::{sha256, sha256_of};
use crate::pubkey::{pubkey_bytes, Pubkey};

verus! {

/// Most validators an attesting roster can hold.
pub const MAX_X1_VALIDATORS: usize = 10;

/// The attesting validator roster, its threshold, and its version.
#[derive(Clone, Debug)]
pub struct X1ValidatorSet {
    /// Monotonically increasing version; old versions' signatures are dead.
    pub version: u64,
    /// Trusted validator public keys.
    pub validators: Vec<Pubkey>,
    /// How many distinct validator signatures an operation needs.
    pub threshold: u8,
}

impl X1ValidatorSet {
    /// The roster invariant: a usable threshold over a bounded roster.
    pub open spec fn wf(self) -> bool {
        &&& 0 < self.threshold as int <= self.validators@.len()
        &&& self.validators@.len() <= MAX_X1_VALIDATORS as int
    }
}

/// Directory entry for one attesting validator.
#[derive(Clone, Debug)]
pub struct X1ValidatorInfo {
    /// The validator's signing public key.
    pub pubkey: Pubkey,
    /// Validator identifier.
    pub name: String,
    /// Endpoint where users can request attestations.
    pub attestation_api: String,
    /// Whether this validator is currently active.
    pub active: bool,
}

/// Whether the key at position `i` already occurred earlier in `pks`.
pub open spec fn dup_at(pks: Seq<Pubkey>, i: int) -> bool {
    exists|j: int| 0 <= j < i && pks[j] == pks[i]
}

/// Whether `roster` holds `pk`.
pub fn roster_contains(roster: &Vec<Pubkey>, pk: &Pubkey) -> (r: bool)
    ensures
        r == roster@.contains(*pk),
{
    let n = roster.len();
    for i in 0..n
        invariant
            n == roster@.len(),
            forall|j: int| 0 <= j < i ==> roster@[j] != *pk,
    {
        if roster[i] == *pk {
            return true;
        }
    }
    false
}

/// One signature approving a validator-set rotation.
#[derive(Clone, Debug)]
pub struct ValidatorUpdateSignature {
    /// Which current validator signed the update.
    pub validator_pubkey: Pubkey,
    /// Their signature over the update message (64 bytes when well-formed).
    pub signature: Vec<u8>,
}

/// A proposed rotation: the replacement roster, its threshold, and the
/// current validators' approvals.
#[derive(Clone, Debug)]
pub struct UpdateValidatorSetParams {
    pub new_validators: Vec<Pubkey>,
    pub new_threshold: u8,
    pub approver_signatures: Vec<ValidatorUpdateSignature>,
}

/// The approvers' public keys, in batch order.
pub open spec fn approver_pubkeys(s: Seq<ValidatorUpdateSignature>) -> Seq<Pubkey> {
    Seq::new(s.len(), |i: int| s[i].validator_pubkey)
}

/// Whether approval `i` passes every per-item check: no earlier approval by
/// the same validator, membership in the current roster, 64-byte signature.
pub open spec fn approval_ok_at(
    s: Seq<ValidatorUpdateSignature>,
    roster: Seq<Pubkey>,
    i: int,
) -> bool {
    &&& !dup_at(approver_pubkeys(s), i)
    &&& roster.contains(s[i].validator_pubkey)
    &&& s[i].signature@.len() == 64
}

/// Whether every approval before `i` passes its per-item checks.
pub open spec fn approvals_ok_to(
    s: Seq<ValidatorUpdateSignature>,
    roster: Seq<Pubkey>,
    i: int,
) -> bool {
    forall|j: int| 0 <= j < i ==> approval_ok_at(s, roster, j)
}

/// Whether a non-empty batch of at least `threshold` approvals passes every
/// per-item check.
pub open spec fn approvals_accepted(
    s: Seq<ValidatorUpdateSignature>,
    roster: Seq<Pubkey>,
    threshold: u8,
) -> bool {
    &&& s.len() > 0
    &&& s.len() >= threshold as int
    &&& approvals_ok_to(s, roster, s.len() as int)
}

/// Whether the first failing approval is a duplicate signer.
pub open spec fn approvals_fail_dup(s: Seq<ValidatorUpdateSignature>, roster: Seq<Pubkey>) -> bool {
    exists|i: int|
        {
            &&& 0 <= i < s.len()
            &&& approvals_ok_to(s, roster, i)
            &&& dup_at(approver_pubkeys(s), i)
        }
}

/// Whether the first failing approval names a signer outside the roster.
pub open spec fn approvals_fail_unknown(
    s: Seq<ValidatorUpdateSignature>,
    roster: Seq<Pubkey>,
) -> bool {
    exists|i: int|
        {
            &&& 0 <= i < s.len()
            &&& approvals_ok_to(s, roster, i)
            &&& !dup_at(approver_pubkeys(s), i)
            &&& !roster.contains(s[i].validator_pubkey)
        }
}

/// Whether the first failing approval carries a malformed signature.
pub open spec fn approvals_fail_sig(s: Seq<ValidatorUpdateSignature>, roster: Seq<Pubkey>) -> bool {
    exists|i: int|
        {
            &&& 0 <= i < s.len()
            &&& approvals_ok_to(s, roster, i)
            &&& !dup_at(approver_pubkeys(s), i)
            &&& roster.contains(s[i].validator_pubkey)
            &&& s[i].signature@.len() != 64
        }
}

/// A batch whose every approval passes exhibits none of the failure kinds.
proof fn lemma_batch_all_ok(s: Seq<ValidatorUpdateSignature>, roster: Seq<Pubkey>)
    requires
        approvals_ok_to(s, roster, s.len() as int),
    ensures
        !approvals_fail_dup(s, roster),
        !approvals_fail_unknown(s, roster),
        !approvals_fail_sig(s, roster),
{
    assert_by_contradiction!(!approvals_fail_dup(s, roster), {
        let i = choose|i: int|
            0 <= i < s.len() && approvals_ok_to(s, roster, i) && dup_at(approver_pubkeys(s), i);
        assert(approval_ok_at(s, roster, i));
    });
    assert_by_contradiction!(!approvals_fail_unknown(s, roster), {
        let i = choose|i: int|
            {
                &&& 0 <= i < s.len()
                &&& approvals_ok_to(s, roster, i)
                &&& !dup_at(approver_pubkeys(s), i)
                &&& !roster.contains(s[i].validator_pubkey)
            };
        assert(approval_ok_at(s, roster, i));
    });
    assert_by_contradiction!(!approvals_fail_sig(s, roster), {
        let i = choose|i: int|
            {
                &&& 0 <= i < s.len()
                &&& approvals_ok_to(s, roster, i)
                &&& !dup_at(approver_pubkeys(s), i)
                &&& roster.contains(s[i].validator_pubkey)
                &&& s[i].signature@.len() != 64
            };
        assert(approval_ok_at(s, roster, i));
    });
}

/// A batch whose first failing approval is `i` fails as a whole, and `i` is
/// the only index any failure kind can point at, so exactly the kind of
/// approval `i`'s failure holds of the batch.
proof fn lemma_batch_first_failure(s: Seq<ValidatorUpdateSignature>, roster: Seq<Pubkey>, i: int)
    requires
        0 <= i < s.len(),
        approvals_ok_to(s, roster, i),
        !approval_ok_at(s, roster, i),
    ensures
        !approvals_ok_to(s, roster, s.len() as int),
        dup_at(approver_pubkeys(s), i) ==> approvals_fail_dup(s, roster) && !approvals_fail_unknown(
            s,
            roster,
        ) && !approvals_fail_sig(s, roster),
        !dup_at(approver_pubkeys(s), i) && !roster.contains(s[i].validator_pubkey)
            ==> !approvals_fail_dup(s, roster) && approvals_fail_unknown(s, roster)
            && !approvals_fail_sig(s, roster),
        !dup_at(approver_pubkeys(s), i) && roster.contains(s[i].validator_pubkey) && s[i].signature@
            .len() != 64 ==> !approvals_fail_dup(s, roster) && !approvals_fail_unknown(s, roster)
            && approvals_fail_sig(s, roster),
{
    assert(approvals_ok_to(s, roster, s.len() as int) ==> approval_ok_at(s, roster, i));
    assert forall|i2: int|
        0 <= i2 < s.len() && approvals_ok_to(s, roster, i2) && !approval_ok_at(
            s,
            roster,
            i2,
        ) implies i2 == i by {
        if i2 < i {
            assert(approval_ok_at(s, roster, i2));
        } else if i2 > i {
            assert(approval_ok_at(s, roster, i));
        }
    }
    if dup_at(approver_pubkeys(s), i) {
        assert(approvals_fail_dup(s, roster));
        assert_by_contradiction!(!approvals_fail_unknown(s, roster), {
            let i2 = choose|i2: int|
                {
                    &&& 0 <= i2 < s.len()
                    &&& approvals_ok_to(s, roster, i2)
                    &&& !dup_at(approver_pubkeys(s), i2)
                    &&& !roster.contains(s[i2].validator_pubkey)
                };
            assert(!approval_ok_at(s, roster, i2));
            assert(i2 == i);
        });
        assert_by_contradiction!(!approvals_fail_sig(s, roster), {
            let i2 = choose|i2: int|
                {
                    &&& 0 <= i2 < s.len()
                    &&& approvals_ok_to(s, roster, i2)
                    &&& !dup_at(approver_pubkeys(s), i2)
                    &&& roster.contains(s[i2].validator_pubkey)
                    &&& s[i2].signature@.len() != 64
                };
            assert(!approval_ok_at(s, roster, i2));
            assert(i2 == i);
        });
    } else if !roster.contains(s[i].validator_pubkey) {
        assert(approvals_fail_unknown(s, roster));
        assert_by_contradiction!(!approvals_fail_dup(s, roster), {
            let i2 = choose|i2: int|
                0 <= i2 < s.len() && approvals_ok_to(s, roster, i2) && dup_at(
                    approver_pubkeys(s),
                    i2,
                );
            assert(!approval_ok_at(s, roster, i2));
            assert(i2 == i);
        });
        assert_by_contradiction!(!approvals_fail_sig(s, roster), {
            let i2 = choose|i2: int|
                {
                    &&& 0 <= i2 < s.len()
                    &&& approvals_ok_to(s, roster, i2)
                    &&& !dup_at(approver_pubkeys(s), i2)
                    &&& roster.contains(s[i2].validator_pubkey)
                    &&& s[i2].signature@.len() != 64
                };
            assert(!approval_ok_at(s, roster, i2));
            assert(i2 == i);
        });
    } else if s[i].signature@.len() != 64 {
        assert(approvals_fail_sig(s, roster));
        assert_by_contradiction!(!approvals_fail_dup(s, roster), {
            let i2 = choose|i2: int|
                0 <= i2 < s.len() && approvals_ok_to(s, roster, i2) && dup_at(
                    approver_pubkeys(s),
                    i2,
                );
            assert(!approval_ok_at(s, roster, i2));
            assert(i2 == i);
        });
        assert_by_contradiction!(!approvals_fail_unknown(s, roster), {
            let i2 = choose|i2: int|
                {
                    &&& 0 <= i2 < s.len()
                    &&& approvals_ok_to(s, roster, i2)
                    &&& !dup_at(approver_pubkeys(s), i2)
                    &&& !roster.contains(s[i2].validator_pubkey)
                };
            assert(!approval_ok_at(s, roster, i2));
            assert(i2 == i);
        });
    }
}

/// The bytes signed to approve a rotation, before hashing: a fixed tag, the
/// current version, the replacement roster, and the new threshold.
pub open spec fn update_message_preimage(
    current_version: u64,
    new_validators: Seq<Pubkey>,
    new_threshold: u8,
) -> Seq<u8> {
    update_tag_bytes() + spec_u64_to_le_bytes(current_version) + concat_pubkey_bytes(
        new_validators,
    ) + seq![new_threshold]
}

/// The ASCII bytes of the update tag, `VALIDATOR_UPDATE`.
pub open spec fn update_tag_bytes() -> Seq<u8> {
    seq![86u8, 65u8, 76u8, 73u8, 68u8, 65u8, 84u8, 79u8, 82u8, 95u8, 85u8, 80u8, 68u8, 65u8, 84u8,
        69u8]
}

/// The concatenated wire forms of a key sequence.
pub open spec fn concat_pubkey_bytes(pks: Seq<Pubkey>) -> Seq<u8>
    decreases pks.len(),
{
    if pks.len() == 0 {
        Seq::<u8>::empty()
    } else {
        concat_pubkey_bytes(pks.drop_last()) + pubkey_bytes(pks.last())
    }
}

/// The ASCII bytes of the update tag.
fn update_tag() -> (r: Vec<u8>)
    ensures
        r@ == update_tag_bytes(),
{
    let mut tag: Vec<u8> = Vec::new();
    tag.push(86u8);
    tag.push(65u8);
    tag.push(76u8);
    tag.push(73u8);
    tag.push(68u8);
    tag.push(65u8);
    tag.push(84u8);
    tag.push(79u8);
    tag.push(82u8);
    tag.push(95u8);
    tag.push(85u8);
    tag.push(80u8);
    tag.push(68u8);
    tag.push(65u8);
    tag.push(84u8);
    tag.push(69u8);
    proof {
        assert(tag@ =~= update_tag_bytes());
    }
    tag
}

/// Build the deterministic message the current validators sign to approve a
/// rotation: the SHA-256 digest of the update preimage.
pub fn create_update_message(
    current_version: u64,
    new_validators: &Vec<Pubkey>,
    new_threshold: u8,
) -> (r: Vec<u8>)
    ensures
        r@ == sha256_of(
            update_message_preimage(current_version, new_validators@, new_threshold),
        ),
        r@.len() == 32,
{
    let mut message_data = update_tag();
    let mut version_bytes = u64_to_le_bytes(current_version);
    message_data.append(&mut version_bytes);
    let n = new_validators.len();
    for i in 0..n
        invariant
            n == new_validators@.len(),
            message_data@ == update_tag_bytes() + spec_u64_to_le_bytes(current_version)
                + concat_pubkey_bytes(new_validators@.take(i as int)),
    {
        let pk_bytes = new_validators[i].to_bytes();
        append_bytes(&mut message_data, &pk_bytes);
        proof {
            assert(new_validators@.take(i as int + 1).drop_last() =~= new_validators@.take(
                i as int,
            ));
            assert(new_validators@.take(i as int + 1).last() == new_validators@[i as int]);
        }
    }
    proof {
        assert(new_validators@.take(n as int) =~= new_validators@);
    }
    message_data.push(new_threshold);
    proof {
        assert(message_data@ =~= update_message_preimage(
            current_version,
            new_validators@,
            new_threshold,
        ));
    }
    sha256(message_data.as_slice())
}

/// Validate one signature's format.
///
/// The attesting validators are trusted to sign correctly (see the module
/// documentation), so only the shape of the data is checked here: a 64-byte
/// signature over a non-empty message.
pub fn verify_ed25519_signature(pubkey: &Pubkey, message: &Vec<u8>, signature: &Vec<u8>) -> (r:
    Result<(), LightClientError>)
    ensures
        r is Ok <==> signature@.len() == 64 && message@.len() > 0,
        signature@.len() != 64 ==> r == Err::<(), LightClientError>(
            LightClientError::InvalidSignatureFormat,
        ),
        signature@.len() == 64 && message@.len() == 0 ==> r == Err::<(), LightClientError>(
            LightClientError::InvalidProofData,
        ),
{
    if signature.len() != 64 {
        return Err(LightClientError::InvalidSignatureFormat);
    }
    if message.len() == 0 {
        return Err(LightClientError::InvalidProofData);
    }
    Ok(())
}

/// Check that at least the current threshold of current validators approved
/// this rotation, each at most once.
///
/// Exactly one verdict holds for a given input; the error names the first
/// failing approval.
pub fn verify_update_signatures(
    params: &UpdateValidatorSetParams,
    current_validators: &Vec<Pubkey>,
    current_threshold: u8,
    current_version: u64,
) -> (r: Result<(), LightClientError>)
    ensures
        r is Ok <==> approvals_accepted(
            params.approver_signatures@,
            current_validators@,
            current_threshold,
        ),
        r == Err::<(), LightClientError>(LightClientError::InvalidValidatorSetUpdate) <==> params
            .approver_signatures@.len() == 0,
        r == Err::<(), LightClientError>(LightClientError::InsufficientSignatures) <==> {
            &&& params.approver_signatures@.len() > 0
            &&& params.approver_signatures@.len() < current_threshold as int
        },
        r == Err::<(), LightClientError>(LightClientError::DuplicateValidator) <==> {
            &&& params.approver_signatures@.len() >= current_threshold as int
            &&& params.approver_signatures@.len() > 0
            &&& approvals_fail_dup(params.approver_signatures@, current_validators@)
        },
        r == Err::<(), LightClientError>(LightClientError::ValidatorNotInSet) <==> {
            &&& params.approver_signatures@.len() >= current_threshold as int
            &&& params.approver_signatures@.len() > 0
            &&& approvals_fail_unknown(params.approver_signatures@, current_validators@)
        },
        r == Err::<(), LightClientError>(LightClientError::InvalidSignatureFormat) <==> {
            &&& params.approver_signatures@.len() >= current_threshold as int
            &&& params.approver_signatures@.len() > 0
            &&& approvals_fail_sig(params.approver_signatures@, current_validators@)
        },
        r is Err ==> r == Err::<(), LightClientError>(LightClientError::InvalidValidatorSetUpdate)
            || r == Err::<(), LightClientError>(LightClientError::InsufficientSignatures) || r
            == Err::<(), LightClientError>(LightClientError::DuplicateValidator) || r == Err::<
            (),
            LightClientError,
        >(LightClientError::ValidatorNotInSet) || r == Err::<(), LightClientError>(
            LightClientError::InvalidSignatureFormat,
        ),
{
    let ghost s = params.approver_signatures@;
    let ghost roster = current_validators@;
    if params.approver_signatures.len() == 0 {
        return Err(LightClientError::InvalidValidatorSetUpdate);
    }
    if params.approver_signatures.len() < current_threshold as usize {
        return Err(LightClientError::InsufficientSignatures);
    }
    let message = create_update_message(
        current_version,
        &params.new_validators,
        params.new_threshold,
    );
    let n = params.approver_signatures.len();
    for i in 0..n
        invariant
            n == s.len(),
            s == params.approver_signatures@,
            roster == current_validators@,
            n >= current_threshold as int,
            n > 0,
            message@.len() == 32,
            approvals_ok_to(s, roster, i as int),
    {
        proof {
            assert(forall|k: int|
                0 <= k < n ==> approver_pubkeys(s)[k] == s[k].validator_pubkey);
        }
        let mut is_dup = false;
        for j in 0..i
            invariant
                0 <= i < n == s.len(),
                s == params.approver_signatures@,
                forall|k: int| 0 <= k < n ==> approver_pubkeys(s)[k] == s[k].validator_pubkey,
                is_dup <==> exists|k: int|
                    0 <= k < j && approver_pubkeys(s)[k] == approver_pubkeys(s)[i as int],
        {
            if params.approver_signatures[j].validator_pubkey
                == params.approver_signatures[i].validator_pubkey {
                is_dup = true;
                assert(approver_pubkeys(s)[j as int] == approver_pubkeys(s)[i as int]);
            }
        }
        proof {
            assert(is_dup <==> dup_at(approver_pubkeys(s), i as int));
        }
        if is_dup {
            proof {
                lemma_batch_first_failure(s, roster, i as int);
            }
            return Err(LightClientError::DuplicateValidator);
        }
        if !roster_contains(current_validators, &params.approver_signatures[i].validator_pubkey) {
            proof {
                lemma_batch_first_failure(s, roster, i as int);
            }
            return Err(LightClientError::ValidatorNotInSet);
        }
        match verify_ed25519_signature(
            &params.approver_signatures[i].validator_pubkey,
            &message,
            &params.approver_signatures[i].signature,
        ) {
            Ok(()) => (),
            Err(_) => {
                proof {
                    lemma_batch_first_failure(s, roster, i as int);
                }
                return Err(LightClientError::InvalidSignatureFormat);
            },
        }
        proof {
            assert(approval_ok_at(s, roster, i as int));
        }
    }
    proof {
        lemma_batch_all_ok(s, roster);
    }
    Ok(())
}

/// Rotate the validator set.
///
/// Needs a usable replacement configuration and the approval of at least the
/// current threshold of distinct current validators; on success the version
/// increases by exactly one (failing closed on overflow) and the roster and
/// threshold are replaced. On any failure the set is unchanged.
pub fn update_validator_set(
    validator_set: &mut X1ValidatorSet,
    params: &UpdateValidatorSetParams,
) -> (r: Result<u64, LightClientError>)
    requires
        old(validator_set).wf(),
    ensures
        final(validator_set).wf(),
        r matches Ok(v) ==> {
            &&& v == old(validator_set).version + 1
            &&& final(validator_set).version == v
            &&& final(validator_set).validators@ == params.new_validators@
            &&& final(validator_set).threshold == params.new_threshold
        },
        r is Err ==> *final(validator_set) == *old(validator_set),
        r is Ok <==> {
            &&& rotation_config_ok(params)
            &&& approvals_accepted(
                params.approver_signatures@,
                old(validator_set).validators@,
                old(validator_set).threshold,
            )
            &&& old(validator_set).version < u64::MAX
        },
        r == Err::<u64, LightClientError>(LightClientError::InvalidThreshold) <==> {
            ||| (params.new_validators@.len() < params.new_threshold as int)
            ||| params.new_threshold == 0
        },
        r == Err::<u64, LightClientError>(LightClientError::InvalidValidatorSetUpdate) <==> {
            &&& 0 < params.new_threshold as int <= params.new_validators@.len()
            &&& {
                ||| params.new_validators@.len() > MAX_X1_VALIDATORS as int
                ||| (params.new_validators@.len() <= MAX_X1_VALIDATORS as int && params
                    .approver_signatures@.len() == 0)
            }
        },
        r == Err::<u64, LightClientError>(LightClientError::InsufficientSignatures) <==> {
            &&& rotation_config_ok(params)
            &&& params.approver_signatures@.len() > 0
            &&& params.approver_signatures@.len() < old(validator_set).threshold as int
        },
        r == Err::<u64, LightClientError>(LightClientError::DuplicateValidator) <==> {
            &&& rotation_config_ok(params)
            &&& params.approver_signatures@.len() >= old(validator_set).threshold as int
            &&& approvals_fail_dup(params.approver_signatures@, old(validator_set).validators@)
        },
        r == Err::<u64, LightClientError>(LightClientError::ValidatorNotInSet) <==> {
            &&& rotation_config_ok(params)
            &&& params.approver_signatures@.len() >= old(validator_set).threshold as int
            &&& approvals_fail_unknown(params.approver_signatures@, old(validator_set).validators@)
        },
        r == Err::<u64, LightClientError>(LightClientError::InvalidSignatureFormat) <==> {
            &&& rotation_config_ok(params)
            &&& params.approver_signatures@.len() >= old(validator_set).threshold as int
            &&& approvals_fail_sig(params.approver_signatures@, old(validator_set).validators@)
        },
        r == Err::<u64, LightClientError>(LightClientError::ArithmeticOverflow) <==> {
            &&& rotation_config_ok(params)
            &&& approvals_accepted(
                params.approver_signatures@,
                old(validator_set).validators@,
                old(validator_set).threshold,
            )
            &&& old(validator_set).version == u64::MAX
        },
{
    if params.new_validators.len() < params.new_threshold as usize {
        return Err(LightClientError::InvalidThreshold);
    }
    if params.new_threshold == 0 {
        return Err(LightClientError::InvalidThreshold);
    }
    if params.new_validators.len() > MAX_X1_VALIDATORS {
        return Err(LightClientError::InvalidValidatorSetUpdate);
    }
    verify_update_signatures(
        params,
        &validator_set.validators,
        validator_set.threshold,
        validator_set.version,
    )?;
    let new_version = match validator_set.version.checked_add(1) {
        Some(v) => v,
        None => {
            return Err(LightClientError::ArithmeticOverflow);
        },
    };
    validator_set.validators = crate::pubkey::copy_pubkeys(&params.new_validators);
    validator_set.threshold = params.new_threshold;
    validator_set.version = new_version;
    Ok(new_version)
}

/// Whether a proposed replacement configuration is usable: a positive
/// threshold not above the roster size, within the roster bound.
pub open spec fn rotation_config_ok(params: &UpdateValidatorSetParams) -> bool {
    &&& 0 < params.new_threshold as int <= params.new_validators@.len()
    &&& params.new_validators@.len() <= MAX_X1_VALIDATORS as int
}

} // verus!
