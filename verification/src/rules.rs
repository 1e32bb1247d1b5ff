//! The rules of the registry, as functions on the model of the store: what creating and
//! updating a record answer, and what they leave behind.

use vstd::prelude::*;
use crate::address::Address;
use crate::error::Error;
use crate::record::RecordView;
use crate::store::{Allocation, EntityKind, Slot, Store};

verus! {

/// A record of `kind` is stored at `address`.
pub open spec fn stored(store: Store, kind: EntityKind, address: Seq<u8>) -> bool {
    store.dom().contains(address) && store[address].kind == kind
}

/// What creating a record at `address` answers: the address must be free, and then the
/// caller must have covered the allocation.
pub open spec fn initialize_outcome(
    store: Store,
    caller: Address,
    address: Address,
    allocation: Allocation,
) -> Result<(), Error> {
    if store.dom().contains(address@) {
        Err(Error::AlreadyExists { address })
    } else if allocation is Unfunded {
        Err(Error::Unfunded { payer: caller })
    } else {
        Ok(())
    }
}

/// The store after creating a record of `kind` at `address` for `caller` at time `now`:
/// on success the fresh record is added, on failure nothing changes.
pub open spec fn initialize_store(
    store: Store,
    kind: EntityKind,
    caller: Address,
    address: Address,
    now: int,
    allocation: Allocation,
) -> Store {
    if initialize_outcome(store, caller, address, allocation) is Ok {
        store.insert(address@, Slot { kind, record: RecordView::created(caller@, now) })
    } else {
        store
    }
}

/// What updating the record of `kind` at `address` answers: the record must exist, and
/// the caller must be its authority.
pub open spec fn update_outcome(
    store: Store,
    kind: EntityKind,
    caller: Address,
    address: Address,
) -> Result<(), Error> {
    if !stored(store, kind, address@) {
        Err(Error::NotFound { address })
    } else if !store[address@].record.authorizes(caller@) {
        Err(Error::Unauthorized { caller, address })
    } else {
        Ok(())
    }
}

/// The store after updating the record of `kind` at `address` with `payload`: on success
/// only the payload of that record changes, on failure nothing changes.
pub open spec fn update_store(
    store: Store,
    kind: EntityKind,
    caller: Address,
    address: Address,
    payload: Seq<u8>,
) -> Store {
    if update_outcome(store, kind, caller, address) is Ok {
        store.insert(
            address@,
            Slot { kind, record: store[address@].record.with_payload(payload) },
        )
    } else {
        store
    }
}

/// What reading the record of `kind` at `address` yields.
pub open spec fn read(store: Store, kind: EntityKind, address: Seq<u8>) -> Option<RecordView> {
    if stored(store, kind, address) {
        Some(store[address].record)
    } else {
        None
    }
}

/// Creating a record at one address twice succeeds only the first time: once a creation
/// has succeeded, any further creation at that address, by whomever and for whatever
/// entity, answers `AlreadyExists` and leaves the store, and so the record, as it was.
pub proof fn law_initialize_once(
    store: Store,
    kind: EntityKind,
    caller: Address,
    address: Address,
    now: int,
    allocation: Allocation,
    second_kind: EntityKind,
    second_caller: Address,
    second_now: int,
    second_allocation: Allocation,
)
    requires
        initialize_outcome(store, caller, address, allocation) is Ok,
    ensures
        ({
            let first = initialize_store(store, kind, caller, address, now, allocation);
            &&& read(first, kind, address@) == Some(RecordView::created(caller@, now))
            &&& initialize_outcome(first, second_caller, address, second_allocation) == Err::<
                (),
                Error,
            >(Error::AlreadyExists { address })
            &&& initialize_store(
                first,
                second_kind,
                second_caller,
                address,
                second_now,
                second_allocation,
            ) == first
        }),
{
}

/// An update by anyone but the record's authority answers `Unauthorized` and leaves the
/// store, and so the record's payload, as it was.
pub proof fn law_update_unauthorized(
    store: Store,
    kind: EntityKind,
    caller: Address,
    address: Address,
    payload: Seq<u8>,
)
    requires
        stored(store, kind, address@),
        caller@ != store[address@].record.authority,
    ensures
        update_outcome(store, kind, caller, address) == Err::<(), Error>(
            Error::Unauthorized { caller, address },
        ),
        update_store(store, kind, caller, address, payload) == store,
        read(update_store(store, kind, caller, address, payload), kind, address@) == read(
            store,
            kind,
            address@,
        ),
{
}

/// An update by the record's authority succeeds, and reading the record afterwards yields
/// the payload written, with authority, status and creation time as before.
pub proof fn law_update_then_read(
    store: Store,
    kind: EntityKind,
    caller: Address,
    address: Address,
    payload: Seq<u8>,
)
    requires
        stored(store, kind, address@),
        caller@ == store[address@].record.authority,
    ensures
        update_outcome(store, kind, caller, address) is Ok,
        ({
            let before = store[address@].record;
            let after = read(update_store(store, kind, caller, address, payload), kind, address@);
            &&& after is Some
            &&& after->0.payload == payload
            &&& after->0.authority == before.authority
            &&& after->0.status == before.status
            &&& after->0.created_at == before.created_at
        }),
{
}

/// Whatever a creation answers, every record stored before it is stored after it, for the
/// same entity and with the same fields.
pub proof fn law_initialize_keeps_records(
    store: Store,
    kind: EntityKind,
    caller: Address,
    address: Address,
    now: int,
    allocation: Allocation,
    other: Seq<u8>,
)
    requires
        store.dom().contains(other),
    ensures
        ({
            let after = initialize_store(store, kind, caller, address, now, allocation);
            after.dom().contains(other) && after[other] == store[other]
        }),
{
}

/// Whatever an update answers, it creates and removes no record, never changes the entity,
/// authority, status or creation time of any record, and leaves every record at another
/// address untouched.
pub proof fn law_update_keeps_authority(
    store: Store,
    kind: EntityKind,
    caller: Address,
    address: Address,
    payload: Seq<u8>,
    other: Seq<u8>,
)
    ensures
        ({
            let after = update_store(store, kind, caller, address, payload);
            &&& after.dom() == store.dom()
            &&& store.dom().contains(other) ==> {
                &&& after[other].kind == store[other].kind
                &&& after[other].record.authority == store[other].record.authority
                &&& after[other].record.status == store[other].record.status
                &&& after[other].record.created_at == store[other].record.created_at
                &&& other != address@ ==> after[other] == store[other]
            }
        }),
{
    let after = update_store(store, kind, caller, address, payload);
    assert(after.dom() =~= store.dom());
}

} // verus!
