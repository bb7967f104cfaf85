use vstd::prelude::*;

verus! {

/// How a request against the record store fails. Every failure aborts the
/// whole request: no partial write is ever visible.
#[derive(Clone, Copy, Debug, PartialEq, Eq, Structural)]
pub enum LedgerError {
    /// The encoded record would exceed the capacity fixed at allocation.
    AllocationCapacityExceeded,
    /// The request referenced a record that does not exist.
    RecordNotFound,
}

} // verus!
