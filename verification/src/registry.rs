//! The record store: a keyed collection of records, each created once at its address and
//! changed only by its authority.

use vstd::prelude::*;
use crate::address::Address;
use crate::error::Error;
use crate::record::Record;
use crate::rules::{initialize_outcome, initialize_store, read, update_outcome, update_store};
use crate::store::{
    distinct, holds, lemma_model_at, lemma_model_push, lemma_model_size, lemma_model_update, model,
    Allocation, EntityKind, Entry, Store,
};

verus! {

/// A keyed collection of records. No two records share an address.
pub struct Registry {
    entries: Vec<Entry>,
}

impl View for Registry {
    type V = Store;

    closed spec fn view(&self) -> Store {
        model(self.entries@)
    }
}

impl Registry {
    #[verifier::type_invariant]
    spec fn well_formed(&self) -> bool {
        distinct(self.entries@)
    }

    /// An empty store.
    pub fn new() -> (registry: Registry)
        ensures
            registry@ == Map::<Seq<u8>, crate::store::Slot>::empty(),
    {
        let registry = Registry { entries: Vec::new() };
        assert(registry@ =~= Map::<Seq<u8>, crate::store::Slot>::empty());
        registry
    }

    /// The number of records stored, which is the number of addresses in use.
    pub fn len(&self) -> (n: usize)
        ensures
            self@.dom().finite(),
            n == self@.dom().len(),
    {
        proof {
            use_type_invariant(self);
            lemma_model_size(self.entries@);
        }
        self.entries.len()
    }

    /// Moves the entries out and leaves the store empty, for the caller to put them back.
    fn take_entries(&mut self) -> (entries: Vec<Entry>)
        ensures
            entries@ == old(self).entries@,
            distinct(entries@),
    {
        proof {
            use_type_invariant(&*self);
        }
        let mut taken = Registry { entries: Vec::new() };
        std::mem::swap(self, &mut taken);
        let Registry { entries } = taken;
        entries
    }

    /// Where in `entries` the record at `address` stands, if any does.
    fn position(&self, address: &Address) -> (found: Option<usize>)
        ensures
            match found {
                Some(i) => i < self.entries@.len() && self.entries@[i as int].address@ == address@,
                None => !holds(self.entries@, address@),
            },
            found is Some == self@.dom().contains(address@),
    {
        let mut i: usize = 0;
        while i < self.entries.len()
            invariant
                i <= self.entries@.len(),
                forall|j: int| 0 <= j < i ==> (#[trigger] self.entries@[j]).address@ != address@,
            decreases self.entries@.len() - i,
        {
            if self.entries[i].address.is(address) {
                assert(holds(self.entries@, address@));
                return Some(i);
            }
            i += 1;
        }
        None
    }

    /// Whether any record is stored at `address`.
    pub fn contains(&self, address: &Address) -> (present: bool)
        ensures
            present == self@.dom().contains(address@),
    {
        self.position(address).is_some()
    }

    /// The record of `kind` stored at `address`, if there is one.
    pub fn get(&self, kind: EntityKind, address: &Address) -> (found: Option<Record>)
        ensures
            match found {
                Some(record) => read(self@, kind, address@) == Some(record@),
                None => read(self@, kind, address@) is None,
            },
    {
        proof {
            use_type_invariant(self);
        }
        match self.position(address) {
            Some(i) => {
                proof {
                    lemma_model_at(self.entries@, i as int);
                }
                let entry = self.entries[i];
                if entry.kind == kind {
                    Some(entry.record)
                } else {
                    None
                }
            },
            None => None,
        }
    }

    /// Creates the record of `kind` at `address`, owned by `caller` and stamped `now`.
    ///
    /// Fails with `AlreadyExists` where the address holds a record of any kind, else with
    /// `Unfunded` where the caller did not cover the allocation. A failure changes nothing.
    pub fn initialize(
        &mut self,
        kind: EntityKind,
        caller: Address,
        address: Address,
        now: i64,
        allocation: Allocation,
    ) -> (outcome: Result<(), Error>)
        ensures
            outcome == initialize_outcome(old(self)@, caller, address, allocation),
            final(self)@ == initialize_store(
                old(self)@,
                kind,
                caller,
                address,
                now as int,
                allocation,
            ),
    {
        proof {
            use_type_invariant(&*self);
        }
        if self.position(&address).is_some() {
            return Err(Error::AlreadyExists { address });
        }
        match allocation {
            Allocation::Unfunded => Err(Error::Unfunded { payer: caller }),
            Allocation::Granted => {
                let entry = Entry { address, kind, record: Record::new(caller, now) };
                let mut entries = self.take_entries();
                proof {
                    lemma_model_push(entries@, entry);
                }
                entries.push(entry);
                *self = Registry { entries };
                Ok(())
            },
        }
    }

    /// Replaces the payload of the record of `kind` at `address`, on behalf of `caller`.
    ///
    /// Fails with `NotFound` where no record of `kind` is stored at the address, else with
    /// `Unauthorized` where the caller is not the record's authority. A failure changes
    /// nothing; success changes the payload of that record and nothing else.
    pub fn update(
        &mut self,
        kind: EntityKind,
        caller: Address,
        address: Address,
        payload: [u8; 32],
    ) -> (outcome: Result<(), Error>)
        ensures
            outcome == update_outcome(old(self)@, kind, caller, address),
            final(self)@ == update_store(old(self)@, kind, caller, address, payload@),
    {
        proof {
            use_type_invariant(&*self);
        }
        match self.position(&address) {
            None => Err(Error::NotFound { address }),
            Some(i) => {
                proof {
                    lemma_model_at(self.entries@, i as int);
                }
                let mut entry = self.entries[i];
                if entry.kind != kind {
                    return Err(Error::NotFound { address });
                }
                if !entry.record.authorizes(&caller) {
                    return Err(Error::Unauthorized { caller, address });
                }
                entry.record.write(payload);
                let mut entries = self.take_entries();
                proof {
                    lemma_model_update(entries@, i as int, entry);
                }
                entries.set(i, entry);
                *self = Registry { entries };
                Ok(())
            },
        }
    }
}

} // verus!
