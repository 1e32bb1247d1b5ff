//! The persisted form of the two kinds of state: field after field, with no padding.
//!
//! A record is the authority (32 bytes), the status (1 byte), the payload (32 bytes) and
//! the creation time (8 bytes, signed, lowest byte first). The state of a signing proxy is
//! the authority (32 bytes) and the bump seed (1 byte).

use vstd::prelude::*;
use crate::address::Address;
use crate::bytes::{
    append_block, append_i64, block_at, i64_at, le_bytes, le_value, lemma_le_bytes_of_value,
    lemma_le_value_of_bytes, signed_of, unsigned_of,
};
use crate::record::{Record, RecordView, Status};
use crate::token::MintAuthority;

verus! {

/// The length of a persisted record.
pub const RECORD_LEN: usize = 73;

/// The length of the persisted state of a signing proxy.
pub const MINT_AUTHORITY_LEN: usize = 33;

/// The byte that stands for the status `Active`.
pub const STATUS_ACTIVE: u8 = 1;

/// A record whose fields have the sizes the layout gives them.
pub open spec fn fits(record: RecordView) -> bool {
    &&& record.authority.len() == 32
    &&& record.payload.len() == 32
    &&& i64::MIN <= record.created_at <= i64::MAX
}

/// The byte that stands for `status`.
pub open spec fn status_code(status: Status) -> u8 {
    match status {
        Status::Active => 1,
    }
}

/// The persisted form of `record`.
pub open spec fn encoded(record: RecordView) -> Seq<u8> {
    record.authority + seq![status_code(record.status)] + record.payload + le_bytes(
        unsigned_of(record.created_at),
    )
}

/// The record that `bytes` are the persisted form of, if they are one: they must have the
/// length of a record and hold a known status.
pub open spec fn decoded(bytes: Seq<u8>) -> Option<RecordView> {
    if bytes.len() == 73 && bytes[32] == 1 {
        Some(
            RecordView {
                authority: bytes.subrange(0, 32),
                status: Status::Active,
                payload: bytes.subrange(33, 65),
                created_at: signed_of(le_value(bytes.subrange(65, 73))),
            },
        )
    } else {
        None
    }
}

/// Reading back what was written yields the record that was written.
pub proof fn law_decode_encoded(record: RecordView)
    requires
        fits(record),
    ensures
        encoded(record).len() == 73,
        decoded(encoded(record)) == Some(record),
{
    let bytes = encoded(record);
    let stamp = unsigned_of(record.created_at);
    lemma_le_value_of_bytes(stamp);
    assert(bytes.subrange(0, 32) =~= record.authority);
    assert(bytes.subrange(33, 65) =~= record.payload);
    assert(bytes.subrange(65, 73) =~= le_bytes(stamp));
    assert(bytes[32] == 1);
}

/// Bytes that are read as a record are the persisted form of that record, and of no other.
pub proof fn law_encode_decoded(bytes: Seq<u8>)
    requires
        decoded(bytes) is Some,
    ensures
        fits(decoded(bytes)->0),
        encoded(decoded(bytes)->0) == bytes,
{
    let record = decoded(bytes)->0;
    let digits = bytes.subrange(65, 73);
    lemma_le_bytes_of_value(digits);
    assert(unsigned_of(signed_of(le_value(digits))) == le_value(digits));
    assert(encoded(record) =~= bytes);
}

/// The persisted form of the state of a signing proxy.
pub open spec fn encoded_authority(state: MintAuthority) -> Seq<u8> {
    state.authority@ + seq![state.bump]
}

impl Record {
    /// The persisted form of this record.
    pub fn encode(&self) -> (bytes: Vec<u8>)
        ensures
            bytes@ == encoded(self@),
            bytes@.len() == 73,
    {
        let mut bytes: Vec<u8> = Vec::new();
        append_block(&mut bytes, &self.authority.bytes);
        match self.status {
            Status::Active => bytes.push(STATUS_ACTIVE),
        }
        append_block(&mut bytes, &self.payload);
        append_i64(&mut bytes, self.created_at);
        assert(bytes@ =~= encoded(self@));
        bytes
    }

    /// The record persisted as `bytes`, or `None` where they are no record.
    pub fn decode(bytes: &[u8]) -> (record: Option<Record>)
        ensures
            match record {
                Some(record) => decoded(bytes@) == Some(record@),
                None => decoded(bytes@) is None,
            },
    {
        if bytes.len() != RECORD_LEN || bytes[32] != STATUS_ACTIVE {
            return None;
        }
        let record = Record {
            authority: Address::new(block_at(bytes, 0)),
            status: Status::Active,
            payload: block_at(bytes, 33),
            created_at: i64_at(bytes, 65),
        };
        Some(record)
    }
}

impl MintAuthority {
    /// The persisted form of this state.
    pub fn encode(&self) -> (bytes: Vec<u8>)
        ensures
            bytes@ == encoded_authority(*self),
            bytes@.len() == 33,
    {
        let mut bytes: Vec<u8> = Vec::new();
        append_block(&mut bytes, &self.authority.bytes);
        bytes.push(self.bump);
        bytes
    }

    /// The state persisted as `bytes`, or `None` where they have not the length of one.
    pub fn decode(bytes: &[u8]) -> (state: Option<MintAuthority>)
        ensures
            state is Some == (bytes@.len() == 33),
            state matches Some(state) ==> encoded_authority(state) == bytes@,
    {
        if bytes.len() != MINT_AUTHORITY_LEN {
            return None;
        }
        let state = MintAuthority { authority: Address::new(block_at(bytes, 0)), bump: bytes[32] };
        assert(encoded_authority(state) =~= bytes@);
        Some(state)
    }
}

/// Reading back the state of a signing proxy yields the state that was written: the
/// persisted form has the length of one, and only equal states share a persisted form.
pub proof fn law_authority_encoding_is_faithful(first: MintAuthority, second: MintAuthority)
    ensures
        encoded_authority(first).len() == 33,
        encoded_authority(first) == encoded_authority(second) ==> first == second,
{
    if encoded_authority(first) == encoded_authority(second) {
        assert(first.authority@ =~= encoded_authority(first).subrange(0, 32));
        assert(second.authority@ =~= encoded_authority(second).subrange(0, 32));
        assert(first.bump == encoded_authority(first)[32]);
        assert(second.bump == encoded_authority(second)[32]);
        Address::lemma_equal_by_view(first.authority, second.authority);
    }
}

} // verus!
