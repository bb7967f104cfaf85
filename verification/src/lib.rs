//! Session bookkeeping over a key-addressed record store.
//!
//! A user registers a session identifier; rotating to a new session archives
//! the old one and discards all verification trust. Other parties attest to a
//! session through immutable verification records, and each verifying user
//! accumulates a witness history of its own. All records live in a
//! [`store::Store`], a key-addressed store with a fixed encoding capacity per
//! record, checked before every commit.

pub mod capacity;
pub mod errors;
pub mod laws;
pub mod ops;
pub mod records;
pub mod store;
