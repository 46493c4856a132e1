//! The traits through which objects are read.
//!
//! Each method has two specification functions beside it: `.._pre` says on
//! which arguments it may be called, `.._post` which results it may give. A
//! store may change between two calls, so one argument may have several
//! results. A store that does not say otherwise may be asked anything and
//! promises nothing.
use crate::base_types::{
    CheckpointSequenceNumber, EpochId, ObjectID, SequenceNumber, TransactionDigest, VersionNumber,
};
use crate::error::SuiResult;
use crate::object::{Object, ObjectKey, ObjectOrTombstone, ObjectRef, PackageObject};
use vstd::prelude::*;

verus! {

/// The identity of an object, with the start of its consensus stream if it has
/// one.
#[derive(Clone, Copy, Debug, PartialEq, Eq, Hash)]
pub enum FullObjectID {
    Fastpath(ObjectID),
    Consensus(ObjectID, SequenceNumber),
}

/// The key of one version of an object, with the start of its consensus stream
/// if it has one.
#[derive(Clone, Copy, Debug, PartialEq, Eq)]
pub enum FullObjectKey {
    Fastpath(ObjectKey),
    Consensus(ObjectID, SequenceNumber, VersionNumber),
}

/// An input that a transaction waits for.
#[allow(inconsistent_fields)]
#[derive(Clone, Copy, Debug, PartialEq, Eq, Hash)]
pub enum InputKey {
    VersionedObject { id: FullObjectID, version: SequenceNumber },
    Package { id: ObjectID },
}

/// What is recorded of an object version in an epoch.
#[derive(Clone, Copy, Debug, PartialEq, Eq)]
pub enum MarkerValue {
    /// The object was received at this version.
    Received,
    /// The object left the fast path at this version.
    FastpathStreamEnded,
    /// The object left consensus, by the given transaction.
    ConsensusStreamEnded(TransactionDigest),
}

/// Reads packages.
pub trait BackingPackageStore {
    open spec fn package_pre(&self, package_id: ObjectID) -> bool {
        true
    }

    open spec fn package_post(&self, package_id: ObjectID, r: SuiResult<Option<PackageObject>>) -> bool {
        true
    }

    /// The package with an id.
    fn get_package_object(&self, package_id: &ObjectID) -> (r: SuiResult<Option<PackageObject>>)
        requires
            self.package_pre(*package_id),
        ensures
            self.package_post(*package_id, r),
    ;
}

/// Reads the objects that other objects own.
pub trait ChildObjectResolver {
    open spec fn child_pre(
        &self,
        parent: ObjectID,
        child: ObjectID,
        child_version_upper_bound: SequenceNumber,
    ) -> bool {
        true
    }

    open spec fn child_post(
        &self,
        parent: ObjectID,
        child: ObjectID,
        child_version_upper_bound: SequenceNumber,
        r: SuiResult<Option<Object>>,
    ) -> bool {
        true
    }

    open spec fn receive_pre(
        &self,
        owner: ObjectID,
        receiving_object_id: ObjectID,
        receive_object_at_version: SequenceNumber,
        epoch_id: EpochId,
    ) -> bool {
        true
    }

    open spec fn receive_post(
        &self,
        owner: ObjectID,
        receiving_object_id: ObjectID,
        receive_object_at_version: SequenceNumber,
        epoch_id: EpochId,
        r: SuiResult<Option<Object>>,
    ) -> bool {
        true
    }

    /// The child of an object, at the greatest version up to a bound.
    fn read_child_object(
        &self,
        parent: &ObjectID,
        child: &ObjectID,
        child_version_upper_bound: SequenceNumber,
    ) -> (r: SuiResult<Option<Object>>)
        requires
            self.child_pre(*parent, *child, child_version_upper_bound),
        ensures
            self.child_post(*parent, *child, child_version_upper_bound, r),
    ;

    /// The object that an object is about to receive.
    fn get_object_received_at_version(
        &self,
        owner: &ObjectID,
        receiving_object_id: &ObjectID,
        receive_object_at_version: SequenceNumber,
        epoch_id: EpochId,
    ) -> (r: SuiResult<Option<Object>>)
        requires
            self.receive_pre(*owner, *receiving_object_id, receive_object_at_version, epoch_id),
        ensures
            self.receive_post(*owner, *receiving_object_id, receive_object_at_version, epoch_id, r),
    ;
}

/// Reads objects.
pub trait ObjectStore {
    open spec fn object_pre(&self, object_id: ObjectID) -> bool {
        true
    }

    open spec fn object_post(&self, object_id: ObjectID, r: Option<Object>) -> bool {
        true
    }

    open spec fn object_by_key_pre(&self, object_id: ObjectID, version: VersionNumber) -> bool {
        true
    }

    open spec fn object_by_key_post(
        &self,
        object_id: ObjectID,
        version: VersionNumber,
        r: Option<Object>,
    ) -> bool {
        true
    }

    /// The latest version of an object.
    fn get_object(&self, object_id: &ObjectID) -> (r: Option<Object>)
        requires
            self.object_pre(*object_id),
        ensures
            self.object_post(*object_id, r),
    ;

    /// One version of an object.
    fn get_object_by_key(&self, object_id: &ObjectID, version: VersionNumber) -> (r: Option<Object>)
        requires
            self.object_by_key_pre(*object_id, version),
        ensures
            self.object_by_key_post(*object_id, version, r),
    ;
}

/// Reads objects and what is recorded of them.
pub trait ObjectCacheRead {
    /// The data of the running epoch.
    type EpochStore;

    /// The state of a lock.
    type LockStatus;

    /// The state of the system.
    type SystemState;

    /// The state of the bridge.
    type Bridge;

    open spec fn get_package_object_pre(&self, id: ObjectID) -> bool {
        true
    }

    open spec fn get_package_object_post(
        &self,
        id: ObjectID,
        r: SuiResult<Option<PackageObject>>,
    ) -> bool {
        true
    }

    open spec fn force_reload_system_packages_post(&self, system_package_ids: Seq<ObjectID>) -> bool {
        true
    }

    open spec fn get_object_pre(&self, id: ObjectID) -> bool {
        true
    }

    open spec fn get_object_post(&self, id: ObjectID, r: Option<Object>) -> bool {
        true
    }

    open spec fn get_latest_object_ref_or_tombstone_pre(&self, object_id: ObjectID) -> bool {
        true
    }

    open spec fn get_latest_object_ref_or_tombstone_post(
        &self,
        object_id: ObjectID,
        r: Option<ObjectRef>,
    ) -> bool {
        true
    }

    open spec fn get_latest_object_or_tombstone_pre(&self, object_id: ObjectID) -> bool {
        true
    }

    open spec fn get_latest_object_or_tombstone_post(
        &self,
        object_id: ObjectID,
        r: Option<(ObjectKey, ObjectOrTombstone)>,
    ) -> bool {
        true
    }

    open spec fn get_object_by_key_pre(&self, object_id: ObjectID, version: SequenceNumber) -> bool {
        true
    }

    open spec fn get_object_by_key_post(
        &self,
        object_id: ObjectID,
        version: SequenceNumber,
        r: Option<Object>,
    ) -> bool {
        true
    }

    open spec fn multi_get_objects_by_key_pre(&self, object_keys: Seq<ObjectKey>) -> bool {
        true
    }

    open spec fn multi_get_objects_by_key_post(
        &self,
        object_keys: Seq<ObjectKey>,
        r: Seq<Option<Object>>,
    ) -> bool {
        true
    }

    open spec fn object_exists_by_key_pre(&self, object_id: ObjectID, version: SequenceNumber) -> bool {
        true
    }

    open spec fn object_exists_by_key_post(
        &self,
        object_id: ObjectID,
        version: SequenceNumber,
        r: bool,
    ) -> bool {
        true
    }

    open spec fn multi_object_exists_by_key_pre(&self, object_keys: Seq<ObjectKey>) -> bool {
        true
    }

    open spec fn multi_object_exists_by_key_post(
        &self,
        object_keys: Seq<ObjectKey>,
        r: Seq<bool>,
    ) -> bool {
        true
    }

    open spec fn multi_input_objects_available_cache_only_post(
        &self,
        keys: Seq<InputKey>,
        r: Seq<bool>,
    ) -> bool {
        true
    }

    open spec fn find_object_lt_or_eq_version_pre(
        &self,
        object_id: ObjectID,
        version: SequenceNumber,
    ) -> bool {
        true
    }

    open spec fn find_object_lt_or_eq_version_post(
        &self,
        object_id: ObjectID,
        version: SequenceNumber,
        r: Option<Object>,
    ) -> bool {
        true
    }

    open spec fn get_lock_post(
        &self,
        obj_ref: ObjectRef,
        epoch_store: &Self::EpochStore,
        r: SuiResult<Self::LockStatus>,
    ) -> bool {
        true
    }

    open spec fn get_live_objref_pre(&self, object_id: ObjectID) -> bool {
        true
    }

    open spec fn get_live_objref_post(&self, object_id: ObjectID, r: SuiResult<ObjectRef>) -> bool {
        true
    }

    open spec fn check_owned_objects_are_live_pre(&self, owned_object_refs: Seq<ObjectRef>) -> bool {
        true
    }

    open spec fn check_owned_objects_are_live_post(
        &self,
        owned_object_refs: Seq<ObjectRef>,
        r: SuiResult<()>,
    ) -> bool {
        true
    }

    open spec fn get_sui_system_state_object_unsafe_post(&self, r: SuiResult<Self::SystemState>) -> bool {
        true
    }

    open spec fn get_bridge_object_unsafe_post(&self, r: SuiResult<Self::Bridge>) -> bool {
        true
    }

    open spec fn get_marker_value_post(
        &self,
        object_key: FullObjectKey,
        epoch_id: EpochId,
        r: Option<MarkerValue>,
    ) -> bool {
        true
    }

    open spec fn get_latest_marker_post(
        &self,
        object_id: FullObjectID,
        epoch_id: EpochId,
        r: Option<(SequenceNumber, MarkerValue)>,
    ) -> bool {
        true
    }

    open spec fn get_highest_pruned_checkpoint_post(
        &self,
        r: Option<CheckpointSequenceNumber>,
    ) -> bool {
        true
    }

    /// The package with an id.
    fn get_package_object(&self, id: &ObjectID) -> (r: SuiResult<Option<PackageObject>>)
        requires
            self.get_package_object_pre(*id),
        ensures
            self.get_package_object_post(*id, r),
    ;

    /// Reads the given packages anew.
    fn force_reload_system_packages(&self, system_package_ids: &[ObjectID])
        ensures
            self.force_reload_system_packages_post(system_package_ids@),
    ;

    /// The latest version of an object.
    fn get_object(&self, id: &ObjectID) -> (r: Option<Object>)
        requires
            self.get_object_pre(*id),
        ensures
            self.get_object_post(*id, r),
    ;

    /// The reference to the latest version of an object, or to its tombstone.
    fn get_latest_object_ref_or_tombstone(&self, object_id: ObjectID) -> (r: Option<ObjectRef>)
        requires
            self.get_latest_object_ref_or_tombstone_pre(object_id),
        ensures
            self.get_latest_object_ref_or_tombstone_post(object_id, r),
    ;

    /// The latest version of an object, or its tombstone, with its key.
    fn get_latest_object_or_tombstone(&self, object_id: ObjectID) -> (r: Option<
        (ObjectKey, ObjectOrTombstone),
    >)
        requires
            self.get_latest_object_or_tombstone_pre(object_id),
        ensures
            self.get_latest_object_or_tombstone_post(object_id, r),
    ;

    /// One version of an object.
    fn get_object_by_key(&self, object_id: &ObjectID, version: SequenceNumber) -> (r: Option<Object>)
        requires
            self.get_object_by_key_pre(*object_id, version),
        ensures
            self.get_object_by_key_post(*object_id, version, r),
    ;

    /// One version of each of several objects.
    fn multi_get_objects_by_key(&self, object_keys: &[ObjectKey]) -> (r: Vec<Option<Object>>)
        requires
            self.multi_get_objects_by_key_pre(object_keys@),
        ensures
            self.multi_get_objects_by_key_post(object_keys@, r@),
    ;

    /// Whether there is a version of an object.
    fn object_exists_by_key(&self, object_id: &ObjectID, version: SequenceNumber) -> (r: bool)
        requires
            self.object_exists_by_key_pre(*object_id, version),
        ensures
            self.object_exists_by_key_post(*object_id, version, r),
    ;

    /// Whether there is a version of each of several objects.
    fn multi_object_exists_by_key(&self, object_keys: &[ObjectKey]) -> (r: Vec<bool>)
        requires
            self.multi_object_exists_by_key_pre(object_keys@),
        ensures
            self.multi_object_exists_by_key_post(object_keys@, r@),
    ;

    /// Whether each of several inputs is in the cache.
    fn multi_input_objects_available_cache_only(&self, keys: &[InputKey]) -> (r: Vec<bool>)
        ensures
            self.multi_input_objects_available_cache_only_post(keys@, r@),
    ;

    /// The greatest version of an object up to a bound.
    fn find_object_lt_or_eq_version(&self, object_id: ObjectID, version: SequenceNumber) -> (r:
        Option<Object>)
        requires
            self.find_object_lt_or_eq_version_pre(object_id, version),
        ensures
            self.find_object_lt_or_eq_version_post(object_id, version, r),
    ;

    /// The lock on an object version.
    fn get_lock(&self, obj_ref: ObjectRef, epoch_store: &Self::EpochStore) -> (r: SuiResult<
        Self::LockStatus,
    >)
        ensures
            self.get_lock_post(obj_ref, epoch_store, r),
    ;

    /// The reference to the live version of an object.
    fn _get_live_objref(&self, object_id: ObjectID) -> (r: SuiResult<ObjectRef>)
        requires
            self.get_live_objref_pre(object_id),
        ensures
            self.get_live_objref_post(object_id, r),
    ;

    /// Whether every reference names a live version.
    fn check_owned_objects_are_live(&self, owned_object_refs: &[ObjectRef]) -> (r: SuiResult<()>)
        requires
            self.check_owned_objects_are_live_pre(owned_object_refs@),
        ensures
            self.check_owned_objects_are_live_post(owned_object_refs@, r),
    ;

    /// The state of the system.
    fn get_sui_system_state_object_unsafe(&self) -> (r: SuiResult<Self::SystemState>)
        ensures
            self.get_sui_system_state_object_unsafe_post(r),
    ;

    /// The state of the bridge.
    fn get_bridge_object_unsafe(&self) -> (r: SuiResult<Self::Bridge>)
        ensures
            self.get_bridge_object_unsafe_post(r),
    ;

    /// What is recorded of an object version in an epoch.
    fn get_marker_value(&self, object_key: FullObjectKey, epoch_id: EpochId) -> (r: Option<
        MarkerValue,
    >)
        ensures
            self.get_marker_value_post(object_key, epoch_id, r),
    ;

    /// The latest record of an object in an epoch.
    fn get_latest_marker(&self, object_id: FullObjectID, epoch_id: EpochId) -> (r: Option<
        (SequenceNumber, MarkerValue),
    >)
        ensures
            self.get_latest_marker_post(object_id, epoch_id, r),
    ;

    /// The highest checkpoint that was pruned.
    fn get_highest_pruned_checkpoint(&self) -> (r: Option<CheckpointSequenceNumber>)
        ensures
            self.get_highest_pruned_checkpoint_post(r),
    ;

    /// Whether an object was received at a version in an epoch.
    fn have_received_object_at_version(&self, object_key: FullObjectKey, epoch_id: EpochId) -> (r:
        bool)
        ensures
            exists|marker: Option<MarkerValue>|
                #[trigger] self.get_marker_value_post(object_key, epoch_id, marker) && r
                    == is_received(marker),
    {
        let marker: Option<MarkerValue> = self.get_marker_value(object_key, epoch_id);
        assert(self.get_marker_value_post(object_key, epoch_id, marker));
        match marker {
            Some(MarkerValue::Received) => true,
            _ => false,
        }
    }
}

/// Whether a record says that the object was received.
pub open spec fn is_received(marker: Option<MarkerValue>) -> bool {
    marker == Some(MarkerValue::Received)
}

} // verus!
