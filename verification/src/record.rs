//! A registry record: who may change it, its status, its payload and when it was made.

use vstd::prelude::*;
use crate::address::Address;
use crate::bytes::{same_block, zero_block};

verus! {

/// The status of a record. A record is made active and no operation moves it on.
#[derive(Clone, Copy, Debug, PartialEq, Eq, Structural)]
pub enum Status {
    Active,
}

/// One registry entry.
#[derive(Clone, Copy, Debug)]
pub struct Record {
    /// The identity that may change the record; fixed when the record is made.
    pub authority: Address,
    pub status: Status,
    /// Thirty-two bytes whose meaning is the caller's.
    pub payload: [u8; 32],
    /// Seconds since the epoch at which the record was made; fixed from then on.
    pub created_at: i64,
}

/// What a record holds, as mathematical values.
pub struct RecordView {
    pub authority: Seq<u8>,
    pub status: Status,
    pub payload: Seq<u8>,
    pub created_at: int,
}

impl View for Record {
    type V = RecordView;

    open spec fn view(&self) -> RecordView {
        RecordView {
            authority: self.authority@,
            status: self.status,
            payload: self.payload@,
            created_at: self.created_at as int,
        }
    }
}

impl RecordView {
    /// The record that `authority` creates at time `now`.
    pub open spec fn created(authority: Seq<u8>, now: int) -> RecordView {
        RecordView { authority, status: Status::Active, payload: zero_block(), created_at: now }
    }

    /// This record with `payload` in place of its own, and nothing else changed.
    pub open spec fn with_payload(self, payload: Seq<u8>) -> RecordView {
        RecordView { payload, ..self }
    }

    /// Whether `caller` may change this record.
    pub open spec fn authorizes(self, caller: Seq<u8>) -> bool {
        self.authority == caller
    }
}

impl Record {
    /// A fresh record: active, owned by `authority`, with a payload of zeros.
    pub fn new(authority: Address, now: i64) -> (record: Record)
        ensures
            record@ == RecordView::created(authority@, now as int),
    {
        let record = Record { authority, status: Status::Active, payload: [0u8; 32], created_at: now };
        assert(record.payload@ =~= zero_block());
        record
    }

    /// Whether `caller` is the authority of this record.
    pub fn authorizes(&self, caller: &Address) -> (allowed: bool)
        ensures
            allowed == self@.authorizes(caller@),
    {
        self.authority.is(caller)
    }

    /// Replaces the payload; authority, status and creation time stay.
    pub fn write(&mut self, payload: [u8; 32])
        ensures
            final(self)@ == old(self)@.with_payload(payload@),
    {
        self.payload = payload;
    }

    /// Whether two records hold the same values.
    pub fn same(&self, other: &Record) -> (same: bool)
        ensures
            same == (self@ == other@),
            same == (*self == *other),
    {
        proof {
            Record::lemma_equal_by_view(*self, *other);
        }
        self.authority.is(&other.authority) && self.status == other.status && same_block(
            &self.payload,
            &other.payload,
        ) && self.created_at == other.created_at
    }

    /// Records are equal exactly when their views are.
    pub proof fn lemma_equal_by_view(a: Record, b: Record)
        ensures
            (a == b) <==> (a@ == b@),
    {
        if a@ == b@ {
            Address::lemma_equal_by_view(a.authority, b.authority);
            assert(a.payload =~= b.payload);
        }
    }
}

impl PartialEq for Record {
    fn eq(&self, other: &Record) -> (same: bool) {
        self.same(other)
    }
}

impl Eq for Record {}

impl vstd::std_specs::cmp::PartialEqSpecImpl for Record {
    open spec fn obeys_eq_spec() -> bool {
        true
    }

    open spec fn eq_spec(&self, other: &Record) -> bool {
        *self == *other
    }
}

} // verus!
