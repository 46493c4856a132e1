//! What reading an input object gives.
use crate::base_types::{ObjectID, SequenceNumber, TransactionDigest};
use crate::object::{Object, ObjectRef};
use vstd::prelude::*;

verus! {

/// How a transaction names an input object.
#[derive(Debug, PartialEq, Eq)]
pub enum InputObjectKind {
    MovePackage(ObjectID),
    ImmOrOwnedMoveObject(ObjectRef),
    SharedMoveObject { id: ObjectID, initial_shared_version: SequenceNumber, mutable: bool },
}

/// What was found for an input object.
#[derive(Debug, PartialEq, Eq)]
pub enum ObjectReadResultKind {
    /// The object.
    Object(Object),
    /// The object left consensus: the version and the transaction that ended it.
    ObjectConsensusStreamEnded(SequenceNumber, TransactionDigest),
    /// The object of a transaction that consensus cancelled.
    CancelledTransactionSharedObject(SequenceNumber),
}

/// An input object and what was found for it.
#[derive(Debug, PartialEq, Eq)]
pub struct ObjectReadResult {
    pub input_object_kind: InputObjectKind,
    pub object: ObjectReadResultKind,
}

impl Clone for InputObjectKind {
    fn clone(&self) -> (r: Self)
        ensures
            r == *self,
    {
        match self {
            InputObjectKind::MovePackage(id) => InputObjectKind::MovePackage(*id),
            InputObjectKind::ImmOrOwnedMoveObject(object_ref) =>
                InputObjectKind::ImmOrOwnedMoveObject(*object_ref),
            InputObjectKind::SharedMoveObject { id, initial_shared_version, mutable } =>
                InputObjectKind::SharedMoveObject {
                    id: *id,
                    initial_shared_version: *initial_shared_version,
                    mutable: *mutable,
                },
        }
    }
}

impl Clone for ObjectReadResultKind {
    fn clone(&self) -> (r: Self)
        ensures
            r == *self,
    {
        match self {
            ObjectReadResultKind::Object(object) => ObjectReadResultKind::Object(object.clone()),
            ObjectReadResultKind::ObjectConsensusStreamEnded(version, digest) =>
                ObjectReadResultKind::ObjectConsensusStreamEnded(*version, *digest),
            ObjectReadResultKind::CancelledTransactionSharedObject(version) =>
                ObjectReadResultKind::CancelledTransactionSharedObject(*version),
        }
    }
}

impl Clone for ObjectReadResult {
    fn clone(&self) -> (r: Self)
        ensures
            r == *self,
    {
        ObjectReadResult {
            input_object_kind: self.input_object_kind.clone(),
            object: self.object.clone(),
        }
    }
}

impl InputObjectKind {
    pub open spec fn spec_object_id(&self) -> ObjectID {
        match *self {
            InputObjectKind::MovePackage(id) => id,
            InputObjectKind::ImmOrOwnedMoveObject(object_ref) => object_ref.0,
            InputObjectKind::SharedMoveObject { id, .. } => id,
        }
    }

    /// The id of the object that is named.
    #[verifier::when_used_as_spec(spec_object_id)]
    pub fn object_id(&self) -> (r: ObjectID)
        ensures
            r == self.spec_object_id(),
    {
        match self {
            InputObjectKind::MovePackage(id) => *id,
            InputObjectKind::ImmOrOwnedMoveObject(object_ref) => object_ref.0,
            InputObjectKind::SharedMoveObject { id, .. } => *id,
        }
    }
}

impl ObjectReadResult {
    pub open spec fn spec_id(&self) -> ObjectID {
        self.input_object_kind.spec_object_id()
    }

    /// The id under which the transaction names the object.
    #[verifier::when_used_as_spec(spec_id)]
    pub fn id(&self) -> (r: ObjectID)
        ensures
            r == self.spec_id(),
    {
        self.input_object_kind.object_id()
    }
}

} // verus!
