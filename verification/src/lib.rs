//! An authority-gated registry of records, and a facade that plans the calls
//! a derived signing authority makes on a fungible-token ledger.

pub mod address;
pub mod authority;
pub mod bytes;
pub mod entities;
pub mod error;
pub mod layout;
pub mod record;
pub mod registry;
pub mod rules;
pub mod store;
pub mod token;
