//! The ways an operation of a store can fail.

use vstd::prelude::*;

verus! {

/// Why an operation of a store failed.  None of them is retried: the caller
/// decides what to do.
#[derive(Clone, Copy, Debug, PartialEq, Eq, Structural)]
pub enum StoreError {
    /// The storage could not be opened, or its tables could not be created.
    Connection,
    /// A row could not be written.  The tables are as they were before.
    Write,
    /// A stored row could not be read back as a report.
    Format,
}

impl StoreError {
    /// A sentence that names the failure.
    pub fn message(&self) -> (text: &'static str)
        ensures
            text@ == match *self {
                StoreError::Connection => "cannot open or initialize the storage"@,
                StoreError::Write => "cannot write the row"@,
                StoreError::Format => "cannot decode a stored row"@,
            },
    {
        match self {
            StoreError::Connection => "cannot open or initialize the storage",
            StoreError::Write => "cannot write the row",
            StoreError::Format => "cannot decode a stored row",
        }
    }
}

} // verus!
