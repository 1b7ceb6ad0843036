use vstd::prelude::*;

verus! {

/// The ways a storage operation can fail.
#[derive(Clone, Copy, Debug, PartialEq, Eq, Structural)]
pub enum StorageError {
    /// The operation needed an existing record and there is none.
    NotFound,
    /// A creation targeted an id that already has a record.
    Conflict,
    /// The stored payload does not decode.
    CorruptRecord,
    /// The backing store could not be reached or refused the statement.
    BackendUnavailable,
}

} // verus!
