//! The failures an operation can end in.

use vstd::prelude::*;
use crate::address::Address;

verus! {

/// Why an operation was refused. Each failure names the address or identity at fault,
/// and none leaves a partial change behind.
#[derive(Clone, Copy, Debug)]
pub enum Error {
    /// A record was to be created at an address that already holds one.
    AlreadyExists { address: Address },
    /// No record of the entity asked for is stored at the address.
    NotFound { address: Address },
    /// The caller is not the authority stored in the record at `address`.
    Unauthorized { caller: Address, address: Address },
    /// The payer could not cover the cost of allocating a record.
    Unfunded { payer: Address },
    /// The token ledger refused a call; `code` is its answer, handed on as it came.
    DelegateFailure { code: u64 },
}

impl Error {
    /// Whether `self` and `other` are the same failure, with the same details.
    pub fn same(&self, other: &Error) -> (same: bool)
        ensures
            same == (*self == *other),
    {
        match (self, other) {
            (Error::AlreadyExists { address: a }, Error::AlreadyExists { address: b }) => a.is(b),
            (Error::NotFound { address: a }, Error::NotFound { address: b }) => a.is(b),
            (
                Error::Unauthorized { caller: c, address: a },
                Error::Unauthorized { caller: d, address: b },
            ) => c.is(d) && a.is(b),
            (Error::Unfunded { payer: a }, Error::Unfunded { payer: b }) => a.is(b),
            (Error::DelegateFailure { code: a }, Error::DelegateFailure { code: b }) => *a == *b,
            _ => false,
        }
    }
}

impl PartialEq for Error {
    fn eq(&self, other: &Error) -> (same: bool) {
        self.same(other)
    }
}

impl Eq for Error {}

impl vstd::std_specs::cmp::PartialEqSpecImpl for Error {
    open spec fn obeys_eq_spec() -> bool {
        true
    }

    open spec fn eq_spec(&self, other: &Error) -> bool {
        *self == *other
    }
}

} // verus!
