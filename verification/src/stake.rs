//! Stake-weighted validator rosters and consensus thresholds.
//!
//! The native-signature burn-proof design weighs signers by stake: a proof is
//! accepted only when the signers' combined stake reaches either the
//! Byzantine-fault-tolerant two-thirds threshold (rounded up) or a configured
//! basis-point minimum for sampled-validator deployments.

use vstd::prelude::*;
use crate::errors::LightClientError;
use crate::pubkey::Pubkey;

verus! {

/// One validator of the source chain, with its stake in lamports.
#[derive(Clone, Copy, PartialEq, Eq, Structural, Debug)]
pub struct ValidatorInfo {
    pub identity: Pubkey,
    pub stake: u64,
}

/// The first entry of `roster` with the given identity, if any.
pub open spec fn spec_find_validator(roster: Seq<ValidatorInfo>, id: Pubkey) -> Option<
    ValidatorInfo,
>
    decreases roster.len(),
{
    if roster.len() == 0 {
        None
    } else if roster[0].identity == id {
        Some(roster[0])
    } else {
        spec_find_validator(roster.drop_first(), id)
    }
}

/// The stake `roster` attributes to `id`: the stake of its first entry with
/// that identity, and nothing for an unknown identity.
pub open spec fn spec_stake_of(roster: Seq<ValidatorInfo>, id: Pubkey) -> int {
    match spec_find_validator(roster, id) {
        Some(v) => v.stake as int,
        None => 0,
    }
}

/// Combined stake that `roster` attributes to the identities in `ids`,
/// counting every occurrence.
pub open spec fn spec_verified_stake(roster: Seq<ValidatorInfo>, ids: Seq<Pubkey>) -> int
    decreases ids.len(),
{
    if ids.len() == 0 {
        0
    } else {
        spec_verified_stake(roster, ids.drop_last()) + spec_stake_of(roster, ids.last())
    }
}

/// Combined stake of every entry of `roster`.
pub open spec fn spec_stake_sum(roster: Seq<ValidatorInfo>) -> int
    decreases roster.len(),
{
    if roster.len() == 0 {
        0
    } else {
        spec_stake_sum(roster.drop_last()) + roster.last().stake
    }
}

/// A prefix never holds more stake than the whole sequence.
pub proof fn lemma_verified_stake_take_le(roster: Seq<ValidatorInfo>, ids: Seq<Pubkey>, i: int)
    requires
        0 <= i <= ids.len(),
    ensures
        spec_verified_stake(roster, ids.take(i)) <= spec_verified_stake(roster, ids),
    decreases ids.len() - i,
{
    if i == ids.len() {
        assert(ids.take(i) =~= ids);
    } else {
        assert(ids.take(ids.len() as int - 1) =~= ids.drop_last());
        assert(spec_stake_of(roster, ids.last()) >= 0);
        assert(ids.drop_last().take(i) =~= ids.take(i));
        lemma_verified_stake_take_le(roster, ids.drop_last(), i);
    }
}

/// Find the first entry of `roster` with identity `id`.
///
/// Shared lookup used by both roster layouts below.
pub(crate) fn find_in_roster<'a>(roster: &'a Vec<ValidatorInfo>, id: &Pubkey) -> (r: Option<
    &'a ValidatorInfo,
>)
    ensures
        match r {
            Some(v) => spec_find_validator(roster@, *id) == Some(*v),
            None => spec_find_validator(roster@, *id) is None,
        },
{
    let n = roster.len();
    assert(roster@.skip(0) =~= roster@);
    for i in 0..n
        invariant
            n == roster@.len(),
            spec_find_validator(roster@.skip(i as int), *id) == spec_find_validator(roster@, *id),
    {
        if roster[i].identity == *id {
            assert(roster@.skip(i as int)[0] == roster@[i as int]);
            return Some(&roster[i]);
        }
        assert(roster@.skip(i as int).drop_first() =~= roster@.skip(i as int + 1));
    }
    assert(roster@.skip(n as int) =~= Seq::<ValidatorInfo>::empty());
    None
}

/// Sum the stake `roster` attributes to each identity in `ids`, failing
/// closed on overflow.
fn accumulate_verified_stake(roster: &Vec<ValidatorInfo>, ids: &Vec<Pubkey>) -> (r: Result<
    u64,
    LightClientError,
>)
    ensures
        r matches Ok(vs) ==> vs == spec_verified_stake(roster@, ids@),
        r is Ok <==> spec_verified_stake(roster@, ids@) <= u64::MAX,
        r is Err ==> r == Err::<u64, LightClientError>(LightClientError::ArithmeticOverflow),
{
    let mut verified_stake: u64 = 0;
    let n = ids.len();
    for i in 0..n
        invariant
            n == ids@.len(),
            verified_stake == spec_verified_stake(roster@, ids@.take(i as int)),
    {
        proof {
            assert(ids@.take(i as int + 1).drop_last() =~= ids@.take(i as int));
            assert(ids@.take(i as int + 1).last() == ids@[i as int]);
        }
        let stake: u64 = match find_in_roster(roster, &ids[i]) {
            Some(v) => v.stake,
            None => 0,
        };
        verified_stake = match verified_stake.checked_add(stake) {
            Some(s) => s,
            None => {
                proof {
                    lemma_verified_stake_take_le(roster@, ids@, i as int + 1);
                }
                return Err(LightClientError::ArithmeticOverflow);
            },
        };
    }
    assert(ids@.take(n as int) =~= ids@);
    Ok(verified_stake)
}

/// The stake-weighted validator set, in descending stake order by
/// convention; the contracts do not depend on the order.
#[derive(Clone, Debug)]
pub struct ValidatorSet {
    pub validators: Vec<ValidatorInfo>,
}

impl ValidatorSet {
    /// Maximum supported validators.
    pub const MAX_VALIDATORS: usize = 500;

    /// Find a validator by identity; `None` if it is not in the set.
    pub fn find_validator<'a>(&'a self, identity: &Pubkey) -> (r: Option<&'a ValidatorInfo>)
        ensures
            match r {
                Some(v) => spec_find_validator(self.validators@, *identity) == Some(*v),
                None => spec_find_validator(self.validators@, *identity) is None,
            },
    {
        find_in_roster(&self.validators, identity)
    }

    /// The two-thirds consensus threshold, rounded up so consensus is never
    /// under-estimated: `(2 * total_stake + 2) / 3`.
    pub fn consensus_threshold(total_stake: u64) -> (r: Result<u64, LightClientError>)
        ensures
            r matches Ok(th) ==> th == (2 * (total_stake as int) + 2) / 3,
            r is Ok <==> 2 * (total_stake as int) + 2 <= u64::MAX,
            r is Err ==> r == Err::<u64, LightClientError>(LightClientError::ArithmeticOverflow),
    {
        let doubled = match total_stake.checked_mul(2) {
            Some(d) => d,
            None => {
                return Err(LightClientError::ArithmeticOverflow);
            },
        };
        let bumped = match doubled.checked_add(2) {
            Some(b) => b,
            None => {
                return Err(LightClientError::ArithmeticOverflow);
            },
        };
        Ok(bumped / 3)
    }

    /// Sum the stake of the given identities and compare it against the
    /// two-thirds consensus threshold of `total_stake`.
    ///
    /// Returns the verified stake and whether it reaches the threshold.
    pub fn verify_stake_threshold(&self, validator_identities: &Vec<Pubkey>, total_stake: u64) -> (r:
        Result<(u64, bool), LightClientError>)
        ensures
            r matches Ok((vs, ok)) ==> {
                &&& vs == spec_verified_stake(self.validators@, validator_identities@)
                &&& (ok <==> vs >= (2 * (total_stake as int) + 2) / 3)
            },
            r is Ok <==> {
                &&& spec_verified_stake(self.validators@, validator_identities@) <= u64::MAX
                &&& 2 * (total_stake as int) + 2 <= u64::MAX
            },
            r is Err ==> r == Err::<(u64, bool), LightClientError>(
                LightClientError::ArithmeticOverflow,
            ),
    {
        let verified_stake = accumulate_verified_stake(&self.validators, validator_identities)?;
        let threshold = Self::consensus_threshold(total_stake)?;
        Ok((verified_stake, verified_stake >= threshold))
    }
}

/// Light-client configuration and counters, kept apart from the roster.
#[derive(Clone, Copy, PartialEq, Eq, Structural, Debug)]
pub struct LightClientState {
    /// Authority allowed to change fee settings (not the validator set).
    pub authority: Pubkey,
    /// Account that receives verification fees.
    pub fee_receiver: Pubkey,
    /// Fee charged per proof verification, in lamports.
    pub verification_fee: u64,
    /// Total active stake of the current validator set.
    pub total_stake: u64,
    /// Number of validators in the current set.
    pub validator_count: u16,
    /// Slot of the last validator-set update.
    pub last_update_slot: u64,
    /// Counter of validator-set updates.
    pub update_epoch: u64,
    /// Current source-chain epoch.
    pub current_epoch: u64,
    /// Last time the validator configuration was rotated.
    pub last_rotation: i64,
}

/// Resilient primary-plus-fallback roster: the top validators by stake serve
/// first, the next few stand by.
#[derive(Clone, Debug)]
pub struct ValidatorConfig {
    /// Current source-chain epoch number.
    pub current_epoch: u64,
    /// Last update timestamp.
    pub last_update: i64,
    /// Primary validators, the top three by stake.
    pub primary_validators: Vec<ValidatorInfo>,
    /// Fallback validators, the next four by stake.
    pub fallback_validators: Vec<ValidatorInfo>,
    /// Sum of the stake of all tracked validators.
    pub total_tracked_stake: u64,
}

impl ValidatorConfig {
    /// Three primaries and four fallbacks.
    pub open spec fn wf(self) -> bool {
        self.primary_validators@.len() == 3 && self.fallback_validators@.len() == 4
    }

    /// All tracked validators: primaries first, then fallbacks.
    pub open spec fn spec_all_validators(self) -> Seq<ValidatorInfo> {
        self.primary_validators@ + self.fallback_validators@
    }

    /// All tracked validators as one list, primaries first.
    pub fn all_validators(&self) -> (r: Vec<ValidatorInfo>)
        ensures
            r@ == self.spec_all_validators(),
    {
        let mut all: Vec<ValidatorInfo> = Vec::new();
        let np = self.primary_validators.len();
        for i in 0..np
            invariant
                np == self.primary_validators@.len(),
                all@ == self.primary_validators@.take(i as int),
        {
            all.push(self.primary_validators[i]);
            assert(all@ =~= self.primary_validators@.take(i as int + 1));
        }
        assert(self.primary_validators@.take(np as int) =~= self.primary_validators@);
        let nf = self.fallback_validators.len();
        for i in 0..nf
            invariant
                nf == self.fallback_validators@.len(),
                all@ == self.primary_validators@ + self.fallback_validators@.take(i as int),
        {
            all.push(self.fallback_validators[i]);
            assert(all@ =~= self.primary_validators@ + self.fallback_validators@.take(
                i as int + 1,
            ));
        }
        assert(all@ =~= self.spec_all_validators());
        all
    }

    /// Whether `identity` is a tracked validator, primary or fallback.
    pub fn contains_validator(&self, identity: &Pubkey) -> (r: bool)
        ensures
            r == spec_find_validator(self.spec_all_validators(), *identity) is Some,
    {
        let all = self.all_validators();
        find_in_roster(&all, identity).is_some()
    }

    /// Find a tracked validator by identity, primaries first.
    pub fn find_validator(&self, identity: &Pubkey) -> (r: Option<ValidatorInfo>)
        ensures
            r == spec_find_validator(self.spec_all_validators(), *identity),
    {
        let all = self.all_validators();
        match find_in_roster(&all, identity) {
            Some(v) => Some(*v),
            None => None,
        }
    }

    /// Total stake of all tracked validators, saturating at the top.
    pub fn calculate_total_stake(&self) -> (r: u64)
        ensures
            r == if spec_stake_sum(self.spec_all_validators()) > u64::MAX {
                u64::MAX as int
            } else {
                spec_stake_sum(self.spec_all_validators())
            },
    {
        let mut total: u64 = 0;
        let all = self.all_validators();
        let n = all.len();
        for i in 0..n
            invariant
                n == all@.len(),
            total == if spec_stake_sum(all@.take(i as int)) > u64::MAX {
                u64::MAX as int
            } else {
                spec_stake_sum(all@.take(i as int))
            },
        {
            proof {
                assert(all@.take(i as int + 1).drop_last() =~= all@.take(i as int));
                assert(all@.take(i as int + 1).last() == all@[i as int]);
            }
            total = total.saturating_add(all[i].stake);
        }
        proof {
            assert(all@.take(n as int) =~= all@);
        }
        total
    }

    /// Sum the stake of the given identities and compare it against the
    /// configured basis-point share of `total_stake`.
    pub fn verify_stake_threshold(&self, validator_identities: &Vec<Pubkey>, total_stake: u64) -> (r:
        Result<(u64, bool), LightClientError>)
        ensures
            r matches Ok((vs, ok)) ==> {
                &&& vs == spec_verified_stake(self.spec_all_validators(), validator_identities@)
                &&& (ok <==> vs >= (total_stake as int) * (
                crate::config::MIN_STAKE_BASIS_POINTS as int) / 10000)
            },
            r is Ok <==> spec_verified_stake(self.spec_all_validators(), validator_identities@)
                <= u64::MAX,
            r is Err ==> r == Err::<(u64, bool), LightClientError>(
                LightClientError::ArithmeticOverflow,
            ),
    {
        let all = self.all_validators();
        let verified_stake = accumulate_verified_stake(&all, validator_identities)?;
        let threshold = calculate_stake_threshold(
            total_stake,
            crate::config::MIN_STAKE_BASIS_POINTS,
        )?;
        Ok((verified_stake, verified_stake >= threshold))
    }
}

/// The minimum stake required as a basis-point share of `total_stake`:
/// `total_stake * basis_points / 10000`.
pub fn calculate_stake_threshold(total_stake: u64, basis_points: u64) -> (r: Result<
    u64,
    LightClientError,
>)
    requires
        basis_points <= 10000,
    ensures
        r == Ok::<u64, LightClientError>(
            (((total_stake as int) * (basis_points as int)) / 10000) as u64,
        ),
        r matches Ok(th) ==> th <= total_stake,
{
    let total_u128 = total_stake as u128;
    let basis_u128 = basis_points as u128;
    proof {
        assert((total_stake as int) * (basis_points as int) <= (u64::MAX as int) * 10000)
            by (nonlinear_arith)
            requires
                total_stake <= u64::MAX,
                basis_points <= 10000,
        ;
    }
    let threshold_u128 = (total_u128 * basis_u128) / 10000u128;
    proof {
        assert((total_stake as int) * (basis_points as int) <= (total_stake as int) * 10000)
            by (nonlinear_arith)
            requires
                basis_points <= 10000,
        ;
        assert((total_stake as int) * 10000 / 10000 == total_stake as int);
        vstd::arithmetic::div_mod::lemma_div_is_ordered(
            (total_stake as int) * (basis_points as int),
            (total_stake as int) * 10000,
            10000,
        );
        assert((total_stake as int) * (basis_points as int) >= 0) by (nonlinear_arith);
    }
    let threshold = threshold_u128 as u64;
    Ok(threshold)
}

} // verus!
