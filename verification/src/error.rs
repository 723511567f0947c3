//! The errors that the library reports.

use vstd::prelude::*;

use crate::id::Id;

verus! {

/// What can go wrong. The variants that carry an `Id` are the refusals of
/// `Stream::push`; the others belong to storage and serialization and carry
/// the stream's name, a path or the cause as text.
#[derive(Debug)]
pub enum Error {
    StreamAlreadyExists(String),
    StreamCreationFailed(String),
    StorageInitializationFailed(String),
    StreamDoesNotExist(String),
    EntityDoesNotExist(Id),
    EntityIdExists(Id),
    EntityAlreadyDeleted(Id),
    FailedToWriteFile(String),
    FailedToOpenFile(String),
    FailedToReadFile(String),
    FailedToReadDir(String),
    CustomConfigNotFound(String),
    NoStreamSet,
    SerializeFailed(String),
    DeserializeFailed(String),
}

} // verus!
