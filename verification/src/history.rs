//! Audit trail of validator-set updates.
//!
//! A ring buffer keeps the most recent updates; each entry records when the
//! set changed, a deterministic digest of the new set, and how much stake
//! approved the change, proving a chain of trust from genesis.

use vstd::prelude::*;
use vstd::bytes::{spec_u64_to_le_bytes, u64_to_le_bytes};
use crate::byteseq::append_bytes;
use crate::errors::LightClientError;
use crate::hashes::{sha256, sha256_of};
use crate::pubkey::{pubkey_bytes, Pubkey};
use crate::stake::{ValidatorInfo, ValidatorSet};

verus! {

/// How many updates the ring buffer keeps.
pub const HISTORY_SIZE: usize = 100;

/// Record of one validator-set update.
#[derive(Clone, Debug)]
pub struct ValidatorSetUpdateRecord {
    /// Update counter value of this update.
    pub update_epoch: u64,
    /// Slot the update was applied in.
    pub slot: u64,
    /// Unix timestamp of the update.
    pub timestamp: i64,
    /// Deterministic digest of the new validator set.
    pub validator_set_hash: Vec<u8>,
    /// Total stake of the new set.
    pub total_stake: u64,
    /// Number of validators in the new set.
    pub validator_count: u16,
    /// Number of approving signatures.
    pub approver_count: u16,
    /// Total stake of the approvers.
    pub approver_stake: u64,
}

/// Whether one identity precedes another in the canonical sort order: the
/// lexicographic order of the key's four words.
pub open spec fn spec_pubkey_le(a: Pubkey, b: Pubkey) -> bool {
    if a.w0 != b.w0 {
        a.w0 < b.w0
    } else if a.w1 != b.w1 {
        a.w1 < b.w1
    } else if a.w2 != b.w2 {
        a.w2 < b.w2
    } else {
        a.w3 <= b.w3
    }
}

/// Whether one identity precedes another in the canonical sort order.
fn pubkey_le(a: &Pubkey, b: &Pubkey) -> (r: bool)
    ensures
        r == spec_pubkey_le(*a, *b),
{
    if a.w0 != b.w0 {
        a.w0 < b.w0
    } else if a.w1 != b.w1 {
        a.w1 < b.w1
    } else if a.w2 != b.w2 {
        a.w2 < b.w2
    } else {
        a.w3 <= b.w3
    }
}

/// Insert a validator into a sorted sequence, before the first entry it
/// precedes.
pub open spec fn spec_insert_sorted(v: ValidatorInfo, s: Seq<ValidatorInfo>) -> Seq<ValidatorInfo>
    decreases s.len(),
{
    if s.len() == 0 {
        seq![v]
    } else if spec_pubkey_le(v.identity, s[0].identity) {
        seq![v] + s
    } else {
        seq![s[0]] + spec_insert_sorted(v, s.drop_first())
    }
}

/// The canonical sorted order of a validator sequence, by insertion.
pub open spec fn spec_sort_validators(s: Seq<ValidatorInfo>) -> Seq<ValidatorInfo>
    decreases s.len(),
{
    if s.len() == 0 {
        Seq::<ValidatorInfo>::empty()
    } else {
        spec_insert_sorted(s.last(), spec_sort_validators(s.drop_last()))
    }
}

/// Inserting at the first position whose entry the new one precedes agrees
/// with the recursive insertion.
proof fn lemma_insert_sorted_at(v: ValidatorInfo, s: Seq<ValidatorInfo>, idx: int)
    requires
        0 <= idx <= s.len(),
        forall|j: int| 0 <= j < idx ==> !spec_pubkey_le(v.identity, (#[trigger] s[j]).identity),
        idx < s.len() ==> spec_pubkey_le(v.identity, s[idx].identity),
    ensures
        spec_insert_sorted(v, s) == s.insert(idx, v),
    decreases s.len(),
{
    if s.len() == 0 {
        assert(spec_insert_sorted(v, s) =~= s.insert(0, v));
    } else if idx == 0 {
        assert(spec_insert_sorted(v, s) =~= s.insert(0, v));
    } else {
        lemma_insert_sorted_at(v, s.drop_first(), idx - 1);
        assert(spec_insert_sorted(v, s) == seq![s[0]] + s.drop_first().insert(idx - 1, v));
        assert(seq![s[0]] + s.drop_first().insert(idx - 1, v) =~= s.insert(idx, v));
    }
}

/// Insert a validator into a sorted list at its canonical position.
fn insert_sorted(sorted: &mut Vec<ValidatorInfo>, v: ValidatorInfo)
    ensures
        final(sorted)@ == spec_insert_sorted(v, old(sorted)@),
{
    let ghost s0 = sorted@;
    let n = sorted.len();
    let mut idx: usize = 0;
    while idx < n
        invariant
            n == sorted@.len(),
            sorted@ == s0,
            0 <= idx <= n,
            forall|j: int|
                0 <= j < idx ==> !spec_pubkey_le(v.identity, (#[trigger] sorted@[j]).identity),
        ensures
            0 <= idx <= n,
            n == sorted@.len(),
            sorted@ == s0,
            forall|j: int|
                0 <= j < idx ==> !spec_pubkey_le(v.identity, (#[trigger] sorted@[j]).identity),
            idx < n ==> spec_pubkey_le(v.identity, sorted@[idx as int].identity),
        decreases n - idx,
    {
        if pubkey_le(&v.identity, &sorted[idx].identity) {
            break ;
        }
        idx = idx + 1;
    }
    proof {
        lemma_insert_sorted_at(v, sorted@, idx as int);
    }
    sorted.insert(idx, v);
}

/// The bytes hashed into a validator-set digest: each validator's identity
/// and little-endian stake, in sequence order.
pub open spec fn validator_hash_input(s: Seq<ValidatorInfo>) -> Seq<u8>
    decreases s.len(),
{
    if s.len() == 0 {
        Seq::<u8>::empty()
    } else {
        validator_hash_input(s.drop_last()) + pubkey_bytes(s.last().identity)
            + spec_u64_to_le_bytes(s.last().stake)
    }
}

impl ValidatorSetUpdateRecord {
    /// Create a deterministic digest of a validator set: the SHA-256 of the
    /// set's entries in canonical sorted order, so the same set always
    /// hashes the same whatever order it arrives in.
    pub fn hash_validator_set(validators: &Vec<ValidatorInfo>) -> (r: Vec<u8>)
        ensures
            r@ == sha256_of(validator_hash_input(spec_sort_validators(validators@))),
            r@.len() == 32,
    {
        let mut sorted_validators: Vec<ValidatorInfo> = Vec::new();
        let n = validators.len();
        for i in 0..n
            invariant
                n == validators@.len(),
                sorted_validators@ == spec_sort_validators(validators@.take(i as int)),
        {
            proof {
                assert(validators@.take(i as int + 1).drop_last() =~= validators@.take(i as int));
                assert(validators@.take(i as int + 1).last() == validators@[i as int]);
            }
            insert_sorted(&mut sorted_validators, validators[i]);
        }
        proof {
            assert(validators@.take(n as int) =~= validators@);
        }
        let mut hash_data: Vec<u8> = Vec::new();
        let m = sorted_validators.len();
        for i in 0..m
            invariant
                m == sorted_validators@.len(),
                sorted_validators@ == spec_sort_validators(validators@),
                hash_data@ == validator_hash_input(sorted_validators@.take(i as int)),
        {
            proof {
                assert(sorted_validators@.take(i as int + 1).drop_last() =~= sorted_validators@
                    .take(i as int));
                assert(sorted_validators@.take(i as int + 1).last() == sorted_validators@[
                    i as int]);
            }
            let pk_bytes = sorted_validators[i].identity.to_bytes();
            append_bytes(&mut hash_data, &pk_bytes);
            let mut stake_bytes = u64_to_le_bytes(sorted_validators[i].stake);
            hash_data.append(&mut stake_bytes);
        }
        proof {
            assert(sorted_validators@.take(m as int) =~= sorted_validators@);
        }
        sha256(hash_data.as_slice())
    }

    /// Create an update record, digesting the new validator set.
    pub fn new(
        update_epoch: u64,
        slot: u64,
        timestamp: i64,
        validators: &Vec<ValidatorInfo>,
        total_stake: u64,
        approver_count: u16,
        approver_stake: u64,
    ) -> (r: Self)
        requires
            validators@.len() <= u16::MAX,
        ensures
            r.update_epoch == update_epoch,
            r.slot == slot,
            r.timestamp == timestamp,
            r.validator_set_hash@ == sha256_of(
                validator_hash_input(spec_sort_validators(validators@)),
            ),
            r.total_stake == total_stake,
            r.validator_count == validators@.len(),
            r.approver_count == approver_count,
            r.approver_stake == approver_stake,
    {
        let validator_set_hash = Self::hash_validator_set(validators);
        ValidatorSetUpdateRecord {
            update_epoch,
            slot,
            timestamp,
            validator_set_hash,
            total_stake,
            validator_count: validators.len() as u16,
            approver_count,
            approver_stake,
        }
    }

    /// Whether this update was approved by at least the two-thirds
    /// consensus threshold of the previous total stake.
    pub fn verify_consensus(&self, previous_total_stake: u64) -> (r: Result<
        bool,
        LightClientError,
    >)
        ensures
            r matches Ok(ok) ==> (ok <==> self.approver_stake >= (2 * (previous_total_stake as int)
                + 2) / 3),
            r is Ok <==> 2 * (previous_total_stake as int) + 2 <= u64::MAX,
            r is Err ==> r == Err::<bool, LightClientError>(LightClientError::ArithmeticOverflow),
    {
        let threshold = match ValidatorSet::consensus_threshold(previous_total_stake) {
            Ok(t) => t,
            Err(e) => {
                return Err(e);
            },
        };
        Ok(self.approver_stake >= threshold)
    }
}

/// Ring buffer of the most recent validator-set updates.
#[derive(Clone, Debug)]
pub struct ValidatorSetHistory {
    /// The records; once full, the oldest is overwritten.
    pub updates: Vec<ValidatorSetUpdateRecord>,
    /// Next write position.
    pub current_index: u8,
    /// Total updates ever recorded; can exceed the buffer size.
    pub total_updates: u64,
}

impl ValidatorSetHistory {
    /// The ring-buffer invariant: a bounded buffer whose write position is
    /// the length while it is still filling.
    pub open spec fn wf(self) -> bool {
        &&& self.updates@.len() <= HISTORY_SIZE as int
        &&& (self.current_index as int) < HISTORY_SIZE as int
        &&& (self.updates@.len() < HISTORY_SIZE as int ==> self.current_index as int
            == self.updates@.len())
    }

    /// An empty history.
    pub fn new() -> (s: Self)
        ensures
            s.wf(),
            s.updates@.len() == 0,
            s.current_index == 0,
            s.total_updates == 0,
    {
        ValidatorSetHistory { updates: Vec::new(), current_index: 0, total_updates: 0 }
    }

    /// Record an update: append while the buffer is filling, overwrite the
    /// oldest entry once it is full; the total count saturates.
    pub fn add_update(&mut self, record: ValidatorSetUpdateRecord)
        requires
            old(self).wf(),
        ensures
            final(self).wf(),
            old(self).updates@.len() < HISTORY_SIZE as int ==> final(self).updates@ == old(
                self,
            ).updates@.push(record),
            old(self).updates@.len() == HISTORY_SIZE as int ==> final(self).updates@ == old(
                self,
            ).updates@.update(old(self).current_index as int, record),
            final(self).current_index as int == (old(self).current_index as int + 1) % (
            HISTORY_SIZE as int),
            final(self).total_updates == crate::mint::spec_saturating_add(
                old(self).total_updates,
                1,
            ),
    {
        let index = self.current_index as usize;
        if self.updates.len() < HISTORY_SIZE {
            self.updates.push(record);
        } else {
            self.updates.set(index, record);
        }
        self.current_index = ((index + 1) % HISTORY_SIZE) as u8;
        self.total_updates = self.total_updates.saturating_add(1);
    }

    /// The most recent update, if any: the entry just before the write
    /// position, wrapping around.
    pub fn get_latest(&self) -> (r: Option<&ValidatorSetUpdateRecord>)
        requires
            self.wf(),
        ensures
            r is None <==> self.updates@.len() == 0,
            r matches Some(rec) ==> *rec == if self.current_index == 0 {
                self.updates@.last()
            } else {
                self.updates@[self.current_index as int - 1]
            },
    {
        if self.updates.len() == 0 {
            return None;
        }
        let latest_index: usize = if self.current_index == 0 {
            self.updates.len() - 1
        } else {
            (self.current_index - 1) as usize
        };
        Some(&self.updates[latest_index])
    }

    /// The first recorded update with the given epoch, if any.
    pub fn get_by_epoch(&self, epoch: u64) -> (r: Option<&ValidatorSetUpdateRecord>)
        ensures
            r is None <==> (forall|i: int|
                0 <= i < self.updates@.len() ==> (#[trigger] self.updates@[i]).update_epoch
                    != epoch),
            r matches Some(rec) ==> exists|i: int|
                {
                    &&& 0 <= i < self.updates@.len()
                    &&& *rec == self.updates@[i]
                    &&& (#[trigger] self.updates@[i]).update_epoch == epoch
                    &&& forall|j: int|
                        0 <= j < i ==> (#[trigger] self.updates@[j]).update_epoch != epoch
                },
    {
        let n = self.updates.len();
        for i in 0..n
            invariant
                n == self.updates@.len(),
                forall|j: int| 0 <= j < i ==> (#[trigger] self.updates@[j]).update_epoch != epoch,
        {
            if self.updates[i].update_epoch == epoch {
                return Some(&self.updates[i]);
            }
        }
        None
    }
}

} // verus!
