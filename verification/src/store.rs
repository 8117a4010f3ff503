//! The store of custody records, one for each escrow identity.

use vstd::prelude::*;
use crate::error::ErrorCode;
use crate::identity::Identity;
use crate::record::EscrowAccount;

verus! {

/// A stored record with the identity it is kept under.
#[derive(Clone, Copy, Debug)]
struct Slot {
    key: Identity,
    record: EscrowAccount,
}

/// Custody records by escrow identity, with room for a fixed number of them.
///
/// An identity that was never written to reads as a fresh record. Writing is
/// all or nothing: `put` stores the whole record or changes nothing.
#[derive(Debug)]
pub struct EscrowStore {
    slots: Vec<Slot>,
    room: usize,
}

impl View for EscrowStore {
    type V = Map<Identity, EscrowAccount>;

    /// The records that were stored, by identity.
    closed spec fn view(&self) -> Map<Identity, EscrowAccount> {
        Map::new(
            |k: Identity| exists|i: int| self.holds_at(k, i),
            |k: Identity| self.slots@[choose|i: int| self.holds_at(k, i)].record,
        )
    }
}

impl EscrowStore {
    /// Slot `i` is the one kept under `k`.
    closed spec fn holds_at(&self, k: Identity, i: int) -> bool {
        0 <= i < self.slots@.len() && self.slots@[i].key == k
    }

    /// The identities in the order of their slots.
    closed spec fn keys(&self) -> Seq<Identity> {
        Seq::new(self.slots@.len(), |i: int| self.slots@[i].key)
    }

    /// No identity has two slots, and the slots fit in the room.
    pub closed spec fn wf(&self) -> bool {
        &&& self.slots@.len() <= self.room
        &&& forall|i: int, j: int|
            0 <= i < j < self.slots@.len() ==> self.slots@[i].key != self.slots@[j].key
    }

    /// The number of records that the store has room for.
    pub closed spec fn spec_capacity(&self) -> usize {
        self.room
    }

    /// The record that reading `identity` gives: the stored one, or a fresh
    /// record where none was stored.
    pub open spec fn record_at(&self, identity: Identity) -> EscrowAccount {
        if self@.contains_key(identity) {
            self@[identity]
        } else {
            EscrowAccount::spec_new()
        }
    }

    /// Every stored record is well formed.
    pub open spec fn records_wf(&self) -> bool {
        forall|k: Identity| #[trigger] self@.contains_key(k) ==> self@[k].wf()
    }

    /// Every stored record holds nothing exactly while it is fresh or
    /// completed.
    pub open spec fn records_consistent(&self) -> bool {
        forall|k: Identity| #[trigger] self@.contains_key(k) ==> self@[k].is_consistent()
    }

    /// Whether a record can be written under `identity`: it replaces one,
    /// or there is room for one more.
    pub open spec fn has_room_for(&self, identity: Identity) -> bool {
        self@.contains_key(identity) || self@.len() < self.spec_capacity()
    }

    /// The view holds what the slots hold, and nothing else.
    proof fn lemma_view(&self)
        requires
            self.wf(),
        ensures
            forall|i: int|
                0 <= i < self.slots@.len() ==> #[trigger] self@.contains_key(self.slots@[i].key)
                    && self@[self.slots@[i].key] == self.slots@[i].record,
            forall|k: Identity| #[trigger]
                self@.contains_key(k) ==> exists|i: int|
                    0 <= i < self.slots@.len() && self.slots@[i].key == k,
    {
        assert forall|i: int| 0 <= i < self.slots@.len() implies #[trigger] self@.contains_key(
            self.slots@[i].key,
        ) && self@[self.slots@[i].key] == self.slots@[i].record by {
            let k = self.slots@[i].key;
            assert(self.holds_at(k, i));
            let c = choose|c: int| self.holds_at(k, c);
            assert(c == i);
        }
        assert forall|k: Identity| #[trigger] self@.contains_key(k) implies exists|i: int|
            0 <= i < self.slots@.len() && self.slots@[i].key == k by {
            let c = choose|c: int| self.holds_at(k, c);
            assert(0 <= c < self.slots@.len() && self.slots@[c].key == k);
        }
    }

    /// Writing `record` under `identity` into slot `at`, which is the slot
    /// of `identity` or a new last slot where it had none, puts the record
    /// into the view and leaves the rest of the view as it was.
    proof fn lemma_written(
        before: &EscrowStore,
        after: &EscrowStore,
        identity: Identity,
        record: EscrowAccount,
        at: int,
    )
        requires
            before.wf(),
            after.room == before.room,
            after.slots@.len() <= after.room,
            0 <= at <= before.slots@.len(),
            at < before.slots@.len() ==> before.slots@[at].key == identity && after.slots@
                == before.slots@.update(at, Slot { key: identity, record }),
            at == before.slots@.len() ==> !before@.contains_key(identity) && after.slots@
                == before.slots@.push(Slot { key: identity, record }),
        ensures
            after.wf(),
            after@ == before@.insert(identity, record),
    {
        before.lemma_view();
        assert forall|j: int| 0 <= j < before.slots@.len() && j != at implies after.slots@[j]
            == before.slots@[j] && before.slots@[j].key != identity by {
            assert(before@.contains_key(before.slots@[j].key));
        }
        assert(after.slots@[at] == Slot { key: identity, record });
        after.lemma_view();
        assert forall|k: Identity|
            after@.contains_key(k) && k != identity implies before@.contains_key(k) && after@[k]
            == before@[k] by {
            let j = choose|j: int| 0 <= j < after.slots@.len() && after.slots@[j].key == k;
            assert(before@.contains_key(before.slots@[j].key));
            assert(after@.contains_key(after.slots@[j].key));
        }
        assert forall|k: Identity| before@.contains_key(k) implies after@.contains_key(k) by {
            let j = choose|j: int| 0 <= j < before.slots@.len() && before.slots@[j].key == k;
            assert(after.slots@[j].key == k);
        }
        assert(after@.contains_key(after.slots@[at].key));
        assert(after@ =~= before@.insert(identity, record));
    }

    /// The identities with a stored record are finitely many, one to a slot.
    proof fn lemma_count(&self)
        requires
            self.wf(),
        ensures
            self@.dom().finite(),
            self@.len() == self.slots@.len(),
    {
        let keys = self.keys();
        assert(keys.no_duplicates());
        assert(self@.dom() =~= keys.to_set()) by {
            assert forall|k: Identity| self@.dom().contains(k) implies keys.to_set().contains(
                k,
            ) by {
                let i = choose|i: int| self.holds_at(k, i);
                assert(keys[i] == k);
            }
            assert forall|k: Identity| keys.to_set().contains(k) implies self@.dom().contains(
                k,
            ) by {
                let i = choose|i: int| 0 <= i < keys.len() && keys[i] == k;
                assert(self.holds_at(k, i));
            }
        }
        vstd::seq_lib::seq_to_set_is_finite(keys);
        keys.unique_seq_to_set();
    }

    /// A store holds finitely many records, and no more than it has room
    /// for.
    pub proof fn lemma_bounded(&self)
        requires
            self.wf(),
        ensures
            self@.dom().finite(),
            self@.len() <= self.spec_capacity(),
    {
        self.lemma_count();
    }

    /// The slot of `identity`, if it has one.
    fn position(&self, identity: &Identity) -> (found: Option<usize>)
        requires
            self.wf(),
        ensures
            match found {
                Some(i) => self.holds_at(*identity, i as int) && self@.contains_key(*identity)
                    && self@[*identity] == self.slots@[i as int].record,
                None => !self@.contains_key(*identity),
            },
    {
        let mut i: usize = 0;
        while i < self.slots.len()
            invariant
                i <= self.slots@.len(),
                self.wf(),
                forall|j: int| 0 <= j < i ==> self.slots@[j].key != *identity,
            decreases self.slots@.len() - i,
        {
            if self.slots[i].key == *identity {
                proof {
                    assert(self.holds_at(*identity, i as int));
                    let c = choose|c: int| self.holds_at(*identity, c);
                    assert(c == i);
                }
                return Some(i);
            }
            i += 1;
        }
        None
    }

    /// An empty store with room for `capacity` records.
    pub fn new(capacity: usize) -> (store: EscrowStore)
        ensures
            store.wf(),
            store@ == Map::<Identity, EscrowAccount>::empty(),
            store.spec_capacity() == capacity,
    {
        let store = EscrowStore { slots: Vec::new(), room: capacity };
        assert(store@ =~= Map::<Identity, EscrowAccount>::empty());
        store
    }

    /// The number of records that the store has room for.
    #[verifier::when_used_as_spec(spec_capacity)]
    pub fn capacity(&self) -> (n: usize)
        ensures
            n == self.spec_capacity(),
    {
        self.room
    }

    /// The number of stored records.
    pub fn len(&self) -> (n: usize)
        requires
            self.wf(),
        ensures
            self@.dom().finite(),
            n == self@.len(),
            n <= self.spec_capacity(),
    {
        proof {
            self.lemma_count();
        }
        self.slots.len()
    }

    /// Whether a record is stored under `identity`.
    pub fn contains(&self, identity: &Identity) -> (found: bool)
        requires
            self.wf(),
        ensures
            found == self@.contains_key(*identity),
    {
        self.position(identity).is_some()
    }

    /// The record stored under `identity`, or a fresh record if there is
    /// none. The store stays as it is.
    pub fn get_or_create(&self, identity: &Identity) -> (record: EscrowAccount)
        requires
            self.wf(),
        ensures
            record == self.record_at(*identity),
    {
        match self.position(identity) {
            Some(i) => self.slots[i].record,
            None => EscrowAccount::new(),
        }
    }

    /// Stores `record` under `identity`, in place of the one that was there.
    ///
    /// Fails with `StorageFailure`, and changes nothing, exactly when
    /// `identity` has no record yet and the store is full.
    pub fn put(&mut self, identity: Identity, record: EscrowAccount) -> (r: Result<(), ErrorCode>)
        requires
            old(self).wf(),
        ensures
            final(self).wf(),
            final(self).spec_capacity() == old(self).spec_capacity(),
            old(self).has_room_for(identity) ==> r.is_ok() && final(self)@ == old(self)@.insert(
                identity,
                record,
            ),
            !old(self).has_room_for(identity) ==> r == Err::<(), ErrorCode>(
                ErrorCode::StorageFailure,
            ) && final(self)@ == old(self)@,
            old(self).records_wf() && record.wf() ==> final(self).records_wf(),
            old(self).records_consistent() && record.is_consistent()
                ==> final(self).records_consistent(),
    {
        proof {
            self.lemma_count();
        }
        match self.position(&identity) {
            Some(i) => {
                let ghost before = *self;
                self.slots[i] = Slot { key: identity, record };
                proof {
                    Self::lemma_written(&before, self, identity, record, i as int);
                }
                Ok(())
            },
            None => {
                if self.slots.len() >= self.room {
                    return Err(ErrorCode::StorageFailure);
                }
                let ghost before = *self;
                self.slots.push(Slot { key: identity, record });
                proof {
                    Self::lemma_written(&before, self, identity, record, before.slots@.len() as int);
                }
                Ok(())
            },
        }
    }
}

} // verus!
