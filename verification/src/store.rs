//! Create-once keyed record stores.
//!
//! The ledger addresses each verified burn and each processed burn by a
//! composite key derived from (asset, user, nonce); creating a record whose
//! key already exists fails. That create-once behaviour is the protocol's
//! sole replay guard, so it is modelled here exactly: a store is a list of
//! records with pairwise distinct keys, and `create` refuses a duplicate.
//!
//! Namespacing by asset is part of the key: the same (user, nonce) pair is
//! legitimately reusable across assets and resolves to disjoint keys.

use vstd::prelude::*;
use crate::pubkey::Pubkey;

verus! {

/// A record addressed by a composite (asset, key-holder, nonce) key.
pub trait Keyed: Sized {
    /// The record's composite key.
    spec fn key(self) -> (u8, Pubkey, u64);

    /// The record's composite key, computed at run time.
    fn exec_key(&self) -> (r: (u8, Pubkey, u64))
        ensures
            r == self.key(),
    ;
}

/// Outcome of a successful attestation verification, waiting to be minted.
#[derive(Clone, Copy, PartialEq, Eq, Structural, Debug)]
pub struct VerifiedBurnV3 {
    /// Asset namespace of the burn.
    pub asset_id: u8,
    /// Burn nonce from the source ledger.
    pub burn_nonce: u64,
    /// User who burned.
    pub user: Pubkey,
    /// Amount burned, as verified.
    pub amount: u64,
    /// When verification occurred.
    pub verified_at: i64,
    /// Whether the burn has been minted; flips false to true exactly once.
    pub processed: bool,
}

impl Keyed for VerifiedBurnV3 {
    open spec fn key(self) -> (u8, Pubkey, u64) {
        (self.asset_id, self.user, self.burn_nonce)
    }

    fn exec_key(&self) -> (r: (u8, Pubkey, u64)) {
        (self.asset_id, self.user, self.burn_nonce)
    }
}

/// Permanent record that a burn was minted; its creation is the replay
/// guard.
#[derive(Clone, Copy, PartialEq, Eq, Structural, Debug)]
pub struct ProcessedBurnV3 {
    /// Asset namespace of the burn.
    pub asset_id: u8,
    /// Burn nonce from the source ledger.
    pub nonce: u64,
    /// User who was minted to.
    pub user: Pubkey,
    /// Amount minted.
    pub amount: u64,
    /// When the mint occurred.
    pub processed_at: i64,
}

impl Keyed for ProcessedBurnV3 {
    open spec fn key(self) -> (u8, Pubkey, u64) {
        (self.asset_id, self.user, self.nonce)
    }

    fn exec_key(&self) -> (r: (u8, Pubkey, u64)) {
        (self.asset_id, self.user, self.nonce)
    }
}

/// A create-once store of keyed records.
pub struct RecordStore<T: Keyed> {
    /// The records; the store invariant keeps their keys pairwise distinct.
    pub records: Vec<T>,
}

/// The store of verified burns awaiting their mint.
pub type VerifiedBurnStore = RecordStore<VerifiedBurnV3>;

/// The store of processed burns: the mint-side replay guard.
pub type ProcessedBurnStore = RecordStore<ProcessedBurnV3>;

impl<T: Keyed + Copy> RecordStore<T> {
    /// The store invariant: keys are pairwise distinct.
    pub open spec fn wf(self) -> bool {
        forall|i: int, j: int|
            0 <= i < j < self.records@.len() ==> (#[trigger] self.records@[i]).key() != (
            #[trigger] self.records@[j]).key()
    }

    /// Whether a record with this key exists.
    pub open spec fn contains_key(self, k: (u8, Pubkey, u64)) -> bool {
        exists|i: int| 0 <= i < self.records@.len() && (#[trigger] self.records@[i]).key() == k
    }

    /// The record with this key (meaningful only when one exists).
    pub open spec fn spec_get(self, k: (u8, Pubkey, u64)) -> T {
        self.records@[choose|i: int|
            0 <= i < self.records@.len() && (#[trigger] self.records@[i]).key() == k]
    }

    /// In a well-formed store the record at index `i` is what `spec_get`
    /// yields for its key.
    pub proof fn lemma_get_at(self, i: int)
        requires
            self.wf(),
            0 <= i < self.records@.len(),
        ensures
            self.contains_key(self.records@[i].key()),
            self.spec_get(self.records@[i].key()) == self.records@[i],
    {
        let k = self.records@[i].key();
        assert(self.contains_key(k));
        let j = choose|j: int|
            0 <= j < self.records@.len() && (#[trigger] self.records@[j]).key() == k;
        if j != i {
            if j < i {
                assert(self.records@[j].key() != self.records@[i].key());
            } else {
                assert(self.records@[i].key() != self.records@[j].key());
            }
        }
    }

    /// An empty store.
    pub fn new() -> (s: Self)
        ensures
            s.wf(),
            s.records@.len() == 0,
            forall|k: (u8, Pubkey, u64)| !s.contains_key(k),
    {
        RecordStore { records: Vec::new() }
    }

    /// The index of the record with this key, if any.
    fn find_index(&self, k: &(u8, Pubkey, u64)) -> (r: Option<usize>)
        requires
            self.wf(),
        ensures
            match r {
                Some(i) => i < self.records@.len() && self.records@[i as int].key() == *k,
                None => !self.contains_key(*k),
            },
    {
        let n = self.records.len();
        for i in 0..n
            invariant
                n == self.records@.len(),
                forall|j: int| 0 <= j < i ==> (#[trigger] self.records@[j]).key() != *k,
        {
            let rk = self.records[i].exec_key();
            if rk.0 == k.0 && rk.1 == k.1 && rk.2 == k.2 {
                proof {
                    assert(self.records@[i as int].key() == *k);
                }
                return Some(i);
            }
        }
        None
    }

    /// Look up the record with this key.
    pub fn get(&self, k: &(u8, Pubkey, u64)) -> (r: Option<T>)
        requires
            self.wf(),
        ensures
            r is Some <==> self.contains_key(*k),
            r matches Some(v) ==> v == self.spec_get(*k) && v.key() == *k,
    {
        match self.find_index(k) {
            Some(i) => {
                proof {
                    self.lemma_get_at(i as int);
                }
                Some(self.records[i])
            },
            None => None,
        }
    }

    /// Create a record. Fails, changing nothing, exactly when a record with
    /// the same key already exists: this is the replay guard.
    pub fn create(&mut self, rec: T) -> (created: bool)
        requires
            old(self).wf(),
        ensures
            final(self).wf(),
            created <==> !old(self).contains_key(rec.key()),
            created ==> final(self).records@ == old(self).records@.push(rec),
            !created ==> *final(self) == *old(self),
            created ==> forall|k: (u8, Pubkey, u64)| #[trigger]
                final(self).contains_key(k) <==> (old(self).contains_key(k) || k == rec.key()),
            created ==> final(self).spec_get(rec.key()) == rec,
            created ==> forall|k: (u8, Pubkey, u64)|
                old(self).contains_key(k) && k != rec.key() ==> #[trigger] final(self).spec_get(k)
                    == old(self).spec_get(k),
    {
        let ghost old_store = *self;
        let k = rec.exec_key();
        match self.find_index(&k) {
            Some(_) => false,
            None => {
                self.records.push(rec);
                proof {
                    let n = old_store.records@.len() as int;
                    assert(self.records@[n] == rec);
                    assert(forall|i: int|
                        0 <= i < n ==> (#[trigger] self.records@[i]) == old_store.records@[i]);
                    assert forall|i: int, j: int| 0 <= i < j < self.records@.len() implies (
                    #[trigger] self.records@[i]).key() != (#[trigger] self.records@[j]).key() by {
                        if j < n {
                            assert(old_store.records@[i].key() != old_store.records@[j].key());
                        } else {
                            assert(!old_store.contains_key(rec.key()));
                            assert(old_store.records@[i].key() != rec.key());
                        }
                    }
                    assert forall|k: (u8, Pubkey, u64)| #[trigger]
                        self.contains_key(k) <==> (old_store.contains_key(k) || k
                        == rec.key()) by {
                        if self.contains_key(k) {
                            let i = choose|i: int|
                                0 <= i < self.records@.len() && (#[trigger] self.records@[i]).key()
                                    == k;
                            if i < n {
                                assert(old_store.contains_key(k));
                            }
                        }
                        if old_store.contains_key(k) {
                            let i = choose|i: int|
                                0 <= i < old_store.records@.len() && (
                                #[trigger] old_store.records@[i]).key() == k;
                            assert(self.records@[i].key() == k);
                        }
                        if k == rec.key() {
                            assert(self.records@[n].key() == k);
                        }
                    }
                    self.lemma_get_at(n);
                    assert forall|k: (u8, Pubkey, u64)|
                        old_store.contains_key(k) && k != rec.key() implies #[trigger] self
                        .spec_get(k) == old_store.spec_get(k) by {
                        let i = choose|i: int|
                            0 <= i < old_store.records@.len() && (
                            #[trigger] old_store.records@[i]).key() == k;
                        old_store.lemma_get_at(i);
                        assert(self.records@[i].key() == k);
                        self.lemma_get_at(i);
                    }
                }
                true
            },
        }
    }

    /// Replace the record with this key.
    pub fn replace(&mut self, rec: T) -> (replaced: bool)
        requires
            old(self).wf(),
        ensures
            final(self).wf(),
            replaced <==> old(self).contains_key(rec.key()),
            !replaced ==> *final(self) == *old(self),
            replaced ==> forall|k: (u8, Pubkey, u64)| #[trigger]
                final(self).contains_key(k) == old(self).contains_key(k),
            replaced ==> final(self).spec_get(rec.key()) == rec,
            replaced ==> forall|k: (u8, Pubkey, u64)|
                old(self).contains_key(k) && k != rec.key() ==> #[trigger] final(self).spec_get(k)
                    == old(self).spec_get(k),
    {
        let ghost old_store = *self;
        let k = rec.exec_key();
        match self.find_index(&k) {
            None => false,
            Some(i) => {
                proof {
                    old_store.lemma_get_at(i as int);
                }
                self.records.set(i, rec);
                proof {
                    let n = self.records@.len() as int;
                    assert(self.records@[i as int] == rec);
                    assert(forall|j: int|
                        0 <= j < n && j != i as int ==> (#[trigger] self.records@[j])
                            == old_store.records@[j]);
                    assert forall|a: int, b: int| 0 <= a < b < n implies (
                    #[trigger] self.records@[a]).key() != (#[trigger] self.records@[b]).key() by {
                        assert(old_store.records@[a].key() != old_store.records@[b].key());
                        assert(self.records@[a].key() == old_store.records@[a].key());
                        assert(self.records@[b].key() == old_store.records@[b].key());
                    }
                    assert forall|k: (u8, Pubkey, u64)| #[trigger]
                        self.contains_key(k) == old_store.contains_key(k) by {
                        if self.contains_key(k) {
                            let a = choose|a: int|
                                0 <= a < n && (#[trigger] self.records@[a]).key() == k;
                            assert(old_store.records@[a].key() == k);
                        }
                        if old_store.contains_key(k) {
                            let a = choose|a: int|
                                0 <= a < n && (#[trigger] old_store.records@[a]).key() == k;
                            assert(self.records@[a].key() == k);
                        }
                    }
                    self.lemma_get_at(i as int);
                    assert forall|k: (u8, Pubkey, u64)|
                        old_store.contains_key(k) && k != rec.key() implies #[trigger] self
                        .spec_get(k) == old_store.spec_get(k) by {
                        let a = choose|a: int|
                            0 <= a < n && (#[trigger] old_store.records@[a]).key() == k;
                        old_store.lemma_get_at(a);
                        assert(self.records@[a].key() == k);
                        self.lemma_get_at(a);
                    }
                }
                true
            },
        }
    }

    /// How many records the store holds.
    pub fn len(&self) -> (r: usize)
        ensures
            r == self.records@.len(),
    {
        self.records.len()
    }
}

} // verus!
