use vstd::prelude::*;

use crate::error::StorageError;
use crate::file_info::{FileInfo, FileInfoView};
use crate::json::is_json_text;

verus! {

/// One row of the session table: the id and the encoded record.
#[derive(Clone, Debug, PartialEq, Eq)]
pub struct DbModel {
    pub id: String,
    pub info: String,
}

impl DbModel {
    /// The row that stores a record.
    pub fn from_info(value: &FileInfo) -> (r: DbModel)
        ensures
            r.id@ == value@.id,
            r.info@ == value@.payload,
            is_json_text(r.info@),
    {
        let id = value.id().to_owned();
        let info = value.payload().to_owned();
        DbModel { id, info }
    }
}

/// What the backing store answers to a statement that writes.
#[derive(Clone, Copy, Debug, PartialEq, Eq, Structural)]
pub enum WriteReply {
    /// The statement ran and touched this many rows.
    Applied(u64),
    /// The statement broke the primary-key constraint.
    DuplicateKey,
    /// The store could not run the statement.
    Unavailable,
}

/// What the backing store answers to a lookup by id.
#[derive(Clone, Debug, PartialEq, Eq)]
pub enum FetchReply {
    /// The row's encoded record.
    Found(String),
    /// No row has the id.
    Missing,
    /// The store could not run the lookup.
    Unavailable,
}

/// The result of `set_info` for the store's answer to its insert (`create`)
/// or its update by id.
pub open spec fn write_outcome(create: bool, reply: WriteReply) -> Result<(), StorageError> {
    match reply {
        WriteReply::Applied(rows) => if !create && rows == 0 {
            Err(StorageError::NotFound)
        } else {
            Ok(())
        },
        WriteReply::DuplicateKey => Err(StorageError::Conflict),
        WriteReply::Unavailable => Err(StorageError::BackendUnavailable),
    }
}

/// The result of `remove_info` for the store's answer to its delete by id:
/// a delete that touched no row succeeds.
pub open spec fn remove_outcome(reply: WriteReply) -> Result<(), StorageError> {
    match reply {
        WriteReply::Applied(_) => Ok(()),
        _ => Err(StorageError::BackendUnavailable),
    }
}

/// The result of `get_info` for a lookup that found `stored`, or nothing.
pub open spec fn read_outcome(stored: Option<Seq<char>>) -> Result<Seq<char>, StorageError> {
    match stored {
        None => Err(StorageError::NotFound),
        Some(text) => if is_json_text(text) {
            Ok(text)
        } else {
            Err(StorageError::CorruptRecord)
        },
    }
}

/// Translates the store's answer to a write into the result of `set_info`.
pub fn write_result(create: bool, reply: WriteReply) -> (r: Result<(), StorageError>)
    ensures
        r == write_outcome(create, reply),
{
    match reply {
        WriteReply::Applied(rows) => if !create && rows == 0 {
            Err(StorageError::NotFound)
        } else {
            Ok(())
        },
        WriteReply::DuplicateKey => Err(StorageError::Conflict),
        WriteReply::Unavailable => Err(StorageError::BackendUnavailable),
    }
}

/// Translates the store's answer to a delete into the result of `remove_info`.
pub fn remove_result(reply: WriteReply) -> (r: Result<(), StorageError>)
    ensures
        r == remove_outcome(reply),
{
    match reply {
        WriteReply::Applied(_) => Ok(()),
        _ => Err(StorageError::BackendUnavailable),
    }
}

/// Turns the store's answer to a lookup of `id` into the result of
/// `get_info`: a payload that does not decode is a corrupt record.
pub fn read_result(id: String, reply: FetchReply) -> (r: Result<FileInfo, StorageError>)
    ensures
        match reply {
            FetchReply::Found(text) => match r {
                Ok(info) => read_outcome(Some(text@)) == Ok::<Seq<char>, StorageError>(text@)
                    && info@ == (FileInfoView { id: id@, payload: text@ }),
                Err(e) => read_outcome(Some(text@)) == Err::<Seq<char>, StorageError>(e),
            },
            FetchReply::Missing => r == Err::<FileInfo, StorageError>(StorageError::NotFound),
            FetchReply::Unavailable => r == Err::<FileInfo, StorageError>(
                StorageError::BackendUnavailable,
            ),
        },
{
    match reply {
        FetchReply::Found(text) => match FileInfo::new(id, text) {
            Some(info) => Ok(info),
            None => Err(StorageError::CorruptRecord),
        },
        FetchReply::Missing => Err(StorageError::NotFound),
        FetchReply::Unavailable => Err(StorageError::BackendUnavailable),
    }
}

} // verus!
