//! The errors of the store.
use crate::base_types::{ObjectID, SequenceNumber};
use crate::object::{ObjectRef, Owner};
use vstd::prelude::*;

verus! {

/// What is wrong with the inputs of a transaction.
#[derive(Debug, PartialEq, Eq)]
pub enum UserInputError {
    /// There is no such object.
    ObjectNotFound { object_id: ObjectID, version: Option<SequenceNumber> },
    /// The version that a reference names cannot be consumed.
    ObjectVersionUnavailableForConsumption {
        provided_obj_ref: ObjectRef,
        current_version: SequenceNumber,
    },
}

/// Why a read failed.
#[derive(Debug, PartialEq, Eq)]
pub enum SuiError {
    /// An object was read as the child of an object that does not own it.
    InvalidChildObjectAccess { object: ObjectID, given_parent: ObjectID, actual_owner: Owner },
    /// The inputs are wrong.
    UserInputError { error: UserInputError },
    /// Another failure of the store, in its own words.
    Storage(String),
}

/// The result of a read.
pub type SuiResult<T> = Result<T, SuiError>;

} // verus!
