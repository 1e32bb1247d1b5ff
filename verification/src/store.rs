//! The model of the record store: a map from address to what is held there, and how a
//! list of entries with distinct addresses stands for it.

use vstd::prelude::*;
use crate::address::Address;
use crate::record::{Record, RecordView};

verus! {

/// The entity a record stands for. One record type serves them all; the tag keeps a
/// record of one entity from being taken for a record of another.
#[derive(Clone, Copy, Debug, PartialEq, Eq, Structural)]
pub enum EntityKind {
    OptimizeInferenceModule,
    ProcessContextModule,
    MintTokensModule,
    RegisterModelModule,
    AnalyzeResultsModule,
    HandleErrorModule,
    InitializeModelModule,
}

/// What the storage allocator answered when the caller asked to pay for a new record.
#[derive(Clone, Copy, Debug, PartialEq, Eq, Structural)]
pub enum Allocation {
    /// The caller covered the cost.
    Granted,
    /// The caller could not cover the cost.
    Unfunded,
}

/// A stored record with the address it lives at and the entity it stands for.
#[derive(Clone, Copy, Debug)]
pub struct Entry {
    pub address: Address,
    pub kind: EntityKind,
    pub record: Record,
}

/// What the store holds at one address.
pub struct Slot {
    pub kind: EntityKind,
    pub record: RecordView,
}

/// The store as a map from address to what is held there.
pub type Store = Map<Seq<u8>, Slot>;

impl Entry {
    /// What this entry puts into the store.
    pub open spec fn slot(self) -> Slot {
        Slot { kind: self.kind, record: self.record@ }
    }
}

/// No address occurs twice among `entries`.
pub open spec fn distinct(entries: Seq<Entry>) -> bool {
    forall|i: int, j: int|
        0 <= i < j < entries.len() ==> (#[trigger] entries[i]).address@ != (
        #[trigger] entries[j]).address@
}

/// Some entry among `entries` lives at `address`.
pub open spec fn holds(entries: Seq<Entry>, address: Seq<u8>) -> bool {
    exists|i: int| 0 <= i < entries.len() && (#[trigger] entries[i]).address@ == address
}

/// The index of an entry that lives at `address`.
pub open spec fn index_of(entries: Seq<Entry>, address: Seq<u8>) -> int {
    choose|i: int| 0 <= i < entries.len() && (#[trigger] entries[i]).address@ == address
}

/// The map that `entries` stand for.
pub open spec fn model(entries: Seq<Entry>) -> Store {
    Map::new(
        |address: Seq<u8>| holds(entries, address),
        |address: Seq<u8>| entries[index_of(entries, address)].slot(),
    )
}

/// With distinct addresses, the model holds at each entry's address what that entry holds.
pub proof fn lemma_model_at(entries: Seq<Entry>, i: int)
    requires
        distinct(entries),
        0 <= i < entries.len(),
    ensures
        model(entries).dom().contains(entries[i].address@),
        model(entries)[entries[i].address@] == entries[i].slot(),
{
    let address = entries[i].address@;
    assert(holds(entries, address));
    let k = index_of(entries, address);
    assert(k == i) by {
        if k < i {
            assert(entries[k].address@ != entries[i].address@);
        } else if i < k {
            assert(entries[i].address@ != entries[k].address@);
        }
    }
}

/// With distinct addresses, the model holds as many addresses as there are entries.
pub proof fn lemma_model_size(entries: Seq<Entry>)
    requires
        distinct(entries),
    ensures
        model(entries).dom().finite(),
        model(entries).dom().len() == entries.len(),
    decreases entries.len(),
{
    if entries.len() == 0 {
        assert(model(entries).dom() =~= Set::<Seq<u8>>::empty());
    } else {
        let rest = entries.drop_last();
        let last = entries.last();
        assert(distinct(rest)) by {
            assert forall|i: int, j: int| 0 <= i < j < rest.len() implies (#[trigger] rest[i]).address@
                != (#[trigger] rest[j]).address@ by {
                assert(entries[i].address@ != entries[j].address@);
            }
        }
        assert(!holds(rest, last.address@)) by {
            if holds(rest, last.address@) {
                let k = index_of(rest, last.address@);
                assert(entries[k].address@ != entries[entries.len() - 1].address@);
            }
        }
        lemma_model_size(rest);
        lemma_model_push(rest, last);
        assert(rest.push(last) =~= entries);
        assert(model(entries).dom() =~= model(rest).dom().insert(last.address@));
    }
}

/// Appending an entry at a free address inserts its slot into the model.
pub proof fn lemma_model_push(entries: Seq<Entry>, entry: Entry)
    requires
        distinct(entries),
        !holds(entries, entry.address@),
    ensures
        distinct(entries.push(entry)),
        model(entries.push(entry)) == model(entries).insert(entry.address@, entry.slot()),
{
    let grown = entries.push(entry);
    assert(distinct(grown)) by {
        assert forall|i: int, j: int| 0 <= i < j < grown.len() implies (#[trigger] grown[i]).address@
            != (#[trigger] grown[j]).address@ by {
            if j < entries.len() {
                assert(entries[i].address@ != entries[j].address@);
            } else {
                assert(grown[i] == entries[i]);
            }
        }
    }
    let target = model(entries).insert(entry.address@, entry.slot());
    assert forall|address: Seq<u8>| model(grown).dom().contains(address) <==> target.dom().contains(
        address,
    ) by {
        if holds(grown, address) {
            let k = index_of(grown, address);
            if k < entries.len() {
                assert(entries[k] == grown[k]);
            }
        }
        if holds(entries, address) {
            let k = index_of(entries, address);
            assert(grown[k] == entries[k]);
        }
        if address == entry.address@ {
            assert(grown[entries.len() as int] == entry);
        }
    }
    assert forall|address: Seq<u8>| model(grown).dom().contains(address) implies model(grown)[address]
        == target[address] by {
        let k = index_of(grown, address);
        lemma_model_at(grown, k);
        if k < entries.len() {
            assert(grown[k] == entries[k]);
            lemma_model_at(entries, k);
        } else {
            assert(grown[k] == entry);
        }
    }
    assert(model(grown) =~= target);
}

/// Replacing an entry by one at the same address overwrites its slot in the model.
pub proof fn lemma_model_update(entries: Seq<Entry>, i: int, entry: Entry)
    requires
        distinct(entries),
        0 <= i < entries.len(),
        entry.address@ == entries[i].address@,
    ensures
        distinct(entries.update(i, entry)),
        model(entries.update(i, entry)) == model(entries).insert(entry.address@, entry.slot()),
{
    let changed = entries.update(i, entry);
    assert forall|a: int, b: int| 0 <= a < b < changed.len() implies (#[trigger] changed[a]).address@
        != (#[trigger] changed[b]).address@ by {
        assert(changed[a].address@ == entries[a].address@);
        assert(changed[b].address@ == entries[b].address@);
        assert(entries[a].address@ != entries[b].address@);
    }
    let target = model(entries).insert(entry.address@, entry.slot());
    assert forall|address: Seq<u8>| model(changed).dom().contains(address) <==> target.dom().contains(
        address,
    ) by {
        if holds(changed, address) {
            let k = index_of(changed, address);
            assert(changed[k].address@ == entries[k].address@);
        }
        if holds(entries, address) {
            let k = index_of(entries, address);
            assert(changed[k].address@ == entries[k].address@);
        }
        if address == entry.address@ {
            assert(changed[i] == entry);
            assert(entries[i].address@ == address);
        }
    }
    assert forall|address: Seq<u8>| model(changed).dom().contains(address) implies model(
        changed,
    )[address] == target[address] by {
        let k = index_of(changed, address);
        lemma_model_at(changed, k);
        if k != i {
            assert(changed[k] == entries[k]);
            lemma_model_at(entries, k);
            assert(entries[k].address@ != entries[i].address@);
        }
    }
    assert(model(changed) =~= target);
}

} // verus!
