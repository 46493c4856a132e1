//! A cache that answers for overridden objects and asks another cache for the
//! rest.
use crate::base_types::{
    CheckpointSequenceNumber, EpochId, ObjectID, SequenceNumber, VersionNumber,
};
use crate::clock::{
    clock_object_at_reading, clock_read, is_clock_id, is_clock_override, is_reading,
    nanos_since_epoch,
};
use crate::error::{SuiError, SuiResult, UserInputError};
use crate::object::{
    hashes_every_object, Object, ObjectDigest, ObjectKey, ObjectOrTombstone, ObjectRef, Owner,
    PackageObject,
};
use crate::object_map::ObjectMap;
use crate::storage::{
    is_received, BackingPackageStore, ChildObjectResolver, FullObjectID, FullObjectKey, InputKey,
    MarkerValue, ObjectCacheRead, ObjectStore,
};
use crate::transaction::{ObjectReadResult, ObjectReadResultKind};
use std::sync::Arc;
use vstd::prelude::*;

verus! {

/// What the cache rests on: the cache that is asked for what is not overridden,
/// and the hash that gives objects their digests.
pub struct ExecutionCacheTraitPointers<R, H> {
    pub object_cache_reader: Arc<R>,
    pub object_hash: H,
}

/// A cache in which chosen objects are overridden. The clock object is overridden
/// whatever is chosen, by one that shows the time of the system clock; only while
/// that clock stands before the epoch there is none.
pub struct OverrideCache<R, H> {
    pub fallback: ExecutionCacheTraitPointers<R, H>,
    pub overrides: ObjectMap<ObjectReadResult>,
}

/// The overrides that a list gives: each under its id, a later one in place of
/// an earlier one.
pub open spec fn overrides_of(list: Seq<ObjectReadResult>) -> Map<ObjectID, ObjectReadResult>
    decreases list.len(),
{
    if list.len() == 0 {
        Map::empty()
    } else {
        overrides_of(list.drop_last()).insert(list.last().id(), list.last())
    }
}

/// The object that an override gives, if it gives one.
pub open spec fn object_in(result: Option<ObjectReadResult>) -> Option<Object> {
    match result {
        Some(result) => match result.object {
            ObjectReadResultKind::Object(object) => Some(object),
            _ => None,
        },
        None => None,
    }
}

/// Whether an override says that its object left consensus.
pub open spec fn is_stream_ended(result: Option<ObjectReadResult>) -> bool {
    result matches Some(result) && result.object is ObjectConsensusStreamEnded
}

/// Whether an override stands for an object of a cancelled transaction.
pub open spec fn is_cancelled(result: Option<ObjectReadResult>) -> bool {
    result matches Some(result) && result.object is CancelledTransactionSharedObject
}

/// Whether `r` is the latest state of an object that left consensus: a tombstone
/// for the object that the fallback still has.
pub open spec fn is_tombstone_for<H: Fn(&Object) -> ObjectDigest>(
    hash: H,
    undeleted: Option<Object>,
    r: Option<(ObjectKey, ObjectOrTombstone)>,
) -> bool {
    match undeleted {
        Some(object) => {
            &&& r matches Some(state)
            &&& state.0 == object.key()
            &&& state.1 matches ObjectOrTombstone::Tombstone(object_ref)
            &&& object.is_referred_by(hash, object_ref)
        },
        None => r is None,
    }
}

/// The error for a reference to a version that is not there.
pub open spec fn unavailable(object_ref: ObjectRef) -> SuiError {
    SuiError::UserInputError {
        error: UserInputError::ObjectVersionUnavailableForConsumption {
            provided_obj_ref: object_ref,
            current_version: object_ref.1,
        },
    }
}

/// The error for an object that is not there.
pub open spec fn not_found(object_id: ObjectID) -> SuiError {
    SuiError::UserInputError { error: UserInputError::ObjectNotFound { object_id, version: None } }
}

/// What reading a child gives, for the object that was found under its id.
pub open spec fn child_access(
    parent: ObjectID,
    child: ObjectID,
    found: Option<Object>,
) -> SuiResult<Option<Object>> {
    match found {
        None => Ok(None),
        Some(object) => if object.inner.owner == Owner::ObjectOwner(parent.address()) {
            Ok(Some(object))
        } else {
            Err(
                SuiError::InvalidChildObjectAccess {
                    object: child,
                    given_parent: parent,
                    actual_owner: object.inner.owner,
                },
            )
        },
    }
}

/// Whether an object that was found belongs to the account with the bytes of an
/// id.
pub open spec fn is_addressed_to(owner: ObjectID, found: Option<Object>) -> bool {
    found matches Some(object) && object.inner.owner == Owner::AddressOwner(owner.address())
}

/// What receiving an object gives, for the object that was found and whether it
/// was received already: the object if it is the receiver's and was not.
pub open spec fn receipt(owner: ObjectID, found: Option<Object>, received: bool) -> Option<
    Object,
> {
    if is_addressed_to(owner, found) && !received {
        found
    } else {
        None
    }
}

/// The object that an override gives, if it gives one.
pub fn overridden_object(result: Option<ObjectReadResult>) -> (r: Option<Object>)
    requires
        !is_cancelled(result),
    ensures
        r == object_in(result),
{
    match result {
        Some(result) => match result.object {
            ObjectReadResultKind::Object(object) => Some(object),
            ObjectReadResultKind::ObjectConsensusStreamEnded(_, _) => None,
            ObjectReadResultKind::CancelledTransactionSharedObject(_) => {
                vstd::pervasive::unreached()
            },
        },
        None => None,
    }
}

/// The latest state of an object that left consensus, for what the fallback
/// still has of it.
pub fn compute_tombstone<H: Fn(&Object) -> ObjectDigest>(
    undeleted: Option<Object>,
    hash: &H,
) -> (r: Option<(ObjectKey, ObjectOrTombstone)>)
    requires
        undeleted matches Some(object) ==> call_requires(*hash, (&object,)),
    ensures
        is_tombstone_for(*hash, undeleted, r),
{
    match undeleted {
        Some(object) => {
            let object_ref: ObjectRef = object.compute_object_reference(hash);
            Some((ObjectKey::from_ref(&object_ref), ObjectOrTombstone::Tombstone(object_ref)))
        },
        None => None,
    }
}

/// What reading a child gives, for the object that was found under its id.
pub fn check_child_access(parent: &ObjectID, child: &ObjectID, found: Option<Object>) -> (r:
    SuiResult<Option<Object>>)
    ensures
        r == child_access(*parent, *child, found),
{
    match found {
        None => Ok(None),
        Some(child_object) => {
            if child_object.inner.owner != Owner::ObjectOwner(parent.to_address()) {
                Err(
                    SuiError::InvalidChildObjectAccess {
                        object: *child,
                        given_parent: *parent,
                        actual_owner: child_object.inner.owner,
                    },
                )
            } else {
                Ok(Some(child_object))
            }
        },
    }
}

/// What receiving an object gives, for the object that was found and whether it
/// was received already.
pub fn check_receipt(owner: &ObjectID, found: Option<Object>, received: bool) -> (r: SuiResult<
    Option<Object>,
>)
    ensures
        r == Ok::<_, SuiError>(receipt(*owner, found, received)),
{
    let recv_object: Object = match found {
        Some(object) => object,
        None => {
            return Ok(None);
        },
    };
    // An object of another owner and one that was received already are both
    // treated as if they did not exist. The caller must not be able to tell
    // the two apart: transactions may be reordered when they are replayed.
    if recv_object.inner.owner != Owner::AddressOwner(owner.to_address()) || received {
        return Ok(None);
    }
    Ok(Some(recv_object))
}

impl<R, H> OverrideCache<R, H> {
    /// The override that the list gave for an id.
    pub open spec fn listed(&self, id: ObjectID) -> Option<ObjectReadResult> {
        if self.overrides@.contains_key(id) {
            Some(self.overrides@[id])
        } else {
            None
        }
    }

    /// Whether `result` is the override of an object at a reading of the system
    /// clock. The reading matters to the clock object alone; for another object
    /// the override is what was listed.
    pub open spec fn override_at(
        &self,
        id: ObjectID,
        nanos: Option<u128>,
        result: Option<ObjectReadResult>,
    ) -> bool {
        if id.is_clock() {
            is_clock_override(nanos, result)
        } else {
            result == self.listed(id)
        }
    }

    /// Whether `result` is the override of an object at a reading that the system
    /// clock may give. Which of them a lookup has is not known, so for the clock
    /// object this may be nothing.
    pub open spec fn override_may_be(&self, id: ObjectID, result: Option<ObjectReadResult>) -> bool {
        if id.is_clock() {
            exists|nanos: Option<u128>| #[trigger]
                is_reading(nanos) && is_clock_override(nanos, result)
        } else {
            result == self.listed(id)
        }
    }

    /// Whether the override of an object stands for one of a cancelled
    /// transaction. Such an object must not be asked for.
    pub open spec fn cancelled(&self, id: ObjectID) -> bool {
        !id.is_clock() && is_cancelled(self.listed(id))
    }

    /// A cache over `fallback` with the listed overrides.
    pub fn new(fallback: ExecutionCacheTraitPointers<R, H>, list: Vec<ObjectReadResult>) -> (r: Self)
        ensures
            r.fallback == fallback,
            r.overrides@ == overrides_of(list@),
    {
        let mut overrides: ObjectMap<ObjectReadResult> = ObjectMap::new();
        let ghost all = list@;
        assert(all.take(0) =~= Seq::<ObjectReadResult>::empty());
        for o in iter: list
            invariant
                iter.seq() == all,
                overrides@ == overrides_of(all.take(iter.index() as int)),
        {
            let ghost i = iter.index() as int;
            overrides.insert(o.id(), o);
            assert(all.take(i + 1).drop_last() =~= all.take(i));
        }
        assert(all.take(all.len() as int) =~= all);
        OverrideCache { fallback, overrides }
    }

    /// The override of an object, for a reading of the system clock.
    pub fn get_override_at(&self, object_id: &ObjectID, nanos: Option<u128>) -> (r: Option<
        ObjectReadResult,
    >)
        ensures
            self.override_at(*object_id, nanos, r),
    {
        if is_clock_id(object_id) {
            return clock_read(clock_object_at_reading(nanos));
        }
        match self.overrides.get(object_id) {
            Some(result) => Some(result.clone()),
            None => None,
        }
    }

    /// The override of an object.
    pub fn get_override(&self, object_id: &ObjectID) -> (r: Option<ObjectReadResult>)
        ensures
            self.override_may_be(*object_id, r),
    {
        let nanos: Option<u128> = if is_clock_id(object_id) {
            nanos_since_epoch()
        } else {
            None
        };
        self.get_override_at(object_id, nanos)
    }

    /// The overrides of the objects that keys name.
    fn get_overrides(&self, object_keys: &[ObjectKey]) -> (r: Vec<Option<ObjectReadResult>>)
        ensures
            r@.len() == object_keys@.len(),
            forall|i: int|
                0 <= i < r@.len() ==> self.override_may_be(object_keys@[i].0, #[trigger] r@[i]),
    {
        let mut results: Vec<Option<ObjectReadResult>> = Vec::new();
        for i in 0..object_keys.len()
            invariant
                results@.len() == i,
                forall|j: int|
                    0 <= j < results@.len() ==> self.override_may_be(
                        object_keys@[j].0,
                        #[trigger] results@[j],
                    ),
        {
            results.push(self.get_override(&object_keys[i].0));
        }
        results
    }

    /// The object that overrides an object.
    pub fn get_override_object(&self, object_id: &ObjectID) -> (r: Option<Object>)
        requires
            !self.cancelled(*object_id),
        ensures
            exists|result: Option<ObjectReadResult>| #[trigger]
                self.override_may_be(*object_id, result) && r == object_in(result),
    {
        let result: Option<ObjectReadResult> = self.get_override(object_id);
        overridden_object(result)
    }
}

impl<R, H> OverrideCache<R, H> {
    /// Whether the fallback may be asked for an object: no override gives one.
    pub open spec fn asks_for_object(&self, id: ObjectID) -> bool {
        id.is_clock() || object_in(self.listed(id)) is None
    }

    /// Whether the fallback may be asked for a version of an object: there is no
    /// override, or it gives another version.
    pub open spec fn asks_for_version(&self, id: ObjectID, version: SequenceNumber) -> bool {
        ||| id.is_clock()
        ||| self.listed(id) is None
        ||| object_in(self.listed(id)) matches Some(object) && object.version() != version
    }

    /// Whether there may be no override of an object.
    pub open spec fn may_lack_override(&self, id: ObjectID) -> bool {
        id.is_clock() || self.listed(id) is None
    }
}

impl<R, H: Fn(&Object) -> ObjectDigest> OverrideCache<R, H> {
    /// Whether the object that overrides an object can be hashed, if there is one.
    pub open spec fn hashes_override(&self, id: ObjectID) -> bool {
        if id.is_clock() {
            hashes_every_object(self.fallback.object_hash)
        } else {
            object_in(self.listed(id)) matches Some(object) ==> call_requires(
                self.fallback.object_hash,
                (&object,),
            )
        }
    }
}

impl<R: ObjectCacheRead, H: Fn(&Object) -> ObjectDigest> OverrideCache<R, H> {
    /// Whether `r` answers a request for a package, under an override.
    pub open spec fn package_answer(
        &self,
        result: Option<ObjectReadResult>,
        id: ObjectID,
        r: SuiResult<Option<PackageObject>>,
    ) -> bool {
        match object_in(result) {
            Some(object) => r == Ok::<_, SuiError>(Some(PackageObject { package_object: object })),
            None => self.fallback.object_cache_reader.get_package_object_post(id, r),
        }
    }

    /// Whether `r` answers a request for an object, under an override.
    pub open spec fn object_answer(
        &self,
        result: Option<ObjectReadResult>,
        id: ObjectID,
        r: Option<Object>,
    ) -> bool {
        match object_in(result) {
            Some(object) => r == Some(object),
            None => self.fallback.object_cache_reader.get_object_post(id, r),
        }
    }

    /// Whether `r` answers a request for the latest reference, under an
    /// override.
    pub open spec fn latest_ref_answer(
        &self,
        result: Option<ObjectReadResult>,
        id: ObjectID,
        r: Option<ObjectRef>,
    ) -> bool {
        match object_in(result) {
            Some(object) => r matches Some(object_ref) && object.is_referred_by(
                self.fallback.object_hash,
                object_ref,
            ),
            None => self.fallback.object_cache_reader.get_latest_object_ref_or_tombstone_post(
                id,
                r,
            ),
        }
    }

    /// Whether `r` answers a request for the latest state, under an override.
    pub open spec fn latest_answer(
        &self,
        result: Option<ObjectReadResult>,
        id: ObjectID,
        r: Option<(ObjectKey, ObjectOrTombstone)>,
    ) -> bool {
        let reader = self.fallback.object_cache_reader;
        match result {
            Some(read) => match read.object {
                ObjectReadResultKind::Object(object) => r == Some(
                    (object.key(), ObjectOrTombstone::Object(object)),
                ),
                ObjectReadResultKind::ObjectConsensusStreamEnded(_, _) => {
                    exists|undeleted: Option<Object>| #[trigger]
                        reader.get_object_post(id, undeleted) && is_tombstone_for(
                            self.fallback.object_hash,
                            undeleted,
                            r,
                        )
                },
                ObjectReadResultKind::CancelledTransactionSharedObject(_) => false,
            },
            None => reader.get_latest_object_or_tombstone_post(id, r),
        }
    }

    /// Whether `r` answers a request for a version, under an override.
    pub open spec fn version_answer(
        &self,
        result: Option<ObjectReadResult>,
        id: ObjectID,
        version: SequenceNumber,
        r: Option<Object>,
    ) -> bool {
        let reader = self.fallback.object_cache_reader;
        match result {
            Some(read) => match read.object {
                ObjectReadResultKind::Object(object) => if object.version() == version {
                    r == Some(object)
                } else {
                    reader.get_object_by_key_post(id, version, r)
                },
                ObjectReadResultKind::ObjectConsensusStreamEnded(_, _) => r is None,
                ObjectReadResultKind::CancelledTransactionSharedObject(_) => false,
            },
            None => reader.get_object_by_key_post(id, version, r),
        }
    }

    /// Whether a version may be asked for, under an override: the override does
    /// not stand for an object of a cancelled transaction, and where the version
    /// is the fallback's to give, it may be asked for it.
    pub open spec fn may_ask_version(
        &self,
        result: Option<ObjectReadResult>,
        id: ObjectID,
        version: SequenceNumber,
    ) -> bool {
        &&& !is_cancelled(result)
        &&& result is None || (object_in(result) matches Some(object) && object.version()
            != version) ==> self.fallback.object_cache_reader.get_object_by_key_pre(id, version)
    }

    /// Whether `r` answers a request for several versions, each under its own
    /// override.
    pub open spec fn versions_answer(
        &self,
        results: Seq<Option<ObjectReadResult>>,
        object_keys: Seq<ObjectKey>,
        r: Seq<Option<Object>>,
    ) -> bool {
        &&& r.len() == object_keys.len()
        &&& forall|i: int|
            0 <= i < r.len() ==> self.version_answer(
                results[i],
                object_keys[i].0,
                object_keys[i].1,
                #[trigger] r[i],
            )
    }

    /// Whether `r` says if a version exists, under an override.
    pub open spec fn existence_answer(
        &self,
        result: Option<ObjectReadResult>,
        id: ObjectID,
        version: SequenceNumber,
        r: bool,
    ) -> bool {
        exists|found: Option<Object>| #[trigger]
            self.version_answer(result, id, version, found) && r == found is Some
    }

    /// Whether `r` says of several versions if they exist, each under its own
    /// override.
    pub open spec fn existences_answer(
        &self,
        results: Seq<Option<ObjectReadResult>>,
        object_keys: Seq<ObjectKey>,
        r: Seq<bool>,
    ) -> bool {
        &&& r.len() == object_keys.len()
        &&& forall|i: int|
            0 <= i < r.len() ==> self.existence_answer(
                results[i],
                object_keys[i].0,
                object_keys[i].1,
                #[trigger] r[i],
            )
    }

    /// Whether the first `n` references may be found live, each under its own
    /// override.
    pub open spec fn are_live(
        &self,
        results: Seq<Option<ObjectReadResult>>,
        owned_object_refs: Seq<ObjectRef>,
        n: int,
    ) -> bool {
        forall|i: int|
            0 <= i < n ==> self.existence_answer(
                results[i],
                (#[trigger] owned_object_refs[i]).0,
                owned_object_refs[i].1,
                true,
            )
    }

    /// Whether `r` says if references are live, each under its own override: `Ok`
    /// where a version is found for each, else the error of the first for which
    /// none is.
    pub open spec fn liveness_answer(
        &self,
        results: Seq<Option<ObjectReadResult>>,
        owned_object_refs: Seq<ObjectRef>,
        r: SuiResult<()>,
    ) -> bool {
        match r {
            Ok(_) => self.are_live(results, owned_object_refs, owned_object_refs.len() as int),
            Err(error) => exists|i: int|
                {
                    &&& 0 <= i < owned_object_refs.len()
                    &&& self.existence_answer(
                        results[i],
                        (#[trigger] owned_object_refs[i]).0,
                        owned_object_refs[i].1,
                        false,
                    )
                    &&& error == unavailable(owned_object_refs[i])
                    &&& self.are_live(results, owned_object_refs, i)
                },
        }
    }

    /// Whether `r` answers a request for the live reference, under an override.
    pub open spec fn live_ref_answer(
        &self,
        result: Option<ObjectReadResult>,
        id: ObjectID,
        r: SuiResult<ObjectRef>,
    ) -> bool {
        match result {
            Some(read) => match read.object {
                ObjectReadResultKind::Object(object) => r matches Ok(object_ref)
                    && object.is_referred_by(self.fallback.object_hash, object_ref),
                ObjectReadResultKind::ObjectConsensusStreamEnded(_, _) => r == Err::<ObjectRef, _>(
                    not_found(id),
                ),
                ObjectReadResultKind::CancelledTransactionSharedObject(_) => false,
            },
            None => self.fallback.object_cache_reader.get_live_objref_post(id, r),
        }
    }

    /// Whether `r` answers a search up to a version, for the latest object that
    /// was found.
    pub open spec fn bounded_answer(
        &self,
        latest: Option<Object>,
        id: ObjectID,
        version: SequenceNumber,
        r: Option<Object>,
    ) -> bool {
        match latest {
            None => r is None,
            Some(object) => if object.version().value <= version.value {
                r == Some(object)
            } else {
                self.fallback.object_cache_reader.find_object_lt_or_eq_version_post(id, version, r)
            },
        }
    }

    /// The package with an id, under an override.
    pub fn package_under(&self, result: Option<ObjectReadResult>, id: &ObjectID) -> (r: SuiResult<
        Option<PackageObject>,
    >)
        requires
            !is_cancelled(result),
            match object_in(result) {
                Some(object) => object.is_package(),
                None => self.fallback.object_cache_reader.get_package_object_pre(*id),
            },
        ensures
            self.package_answer(result, *id, r),
    {
        // An override comes first.
        if let Some(override_object) = overridden_object(result) {
            return Ok(Some(PackageObject::new(override_object)));
        }
        self.fallback.object_cache_reader.get_package_object(id)
    }

    /// The latest version of an object, under an override.
    pub fn object_under(&self, result: Option<ObjectReadResult>, id: &ObjectID) -> (r: Option<
        Object,
    >)
        requires
            !is_cancelled(result),
            object_in(result) is None ==> self.fallback.object_cache_reader.get_object_pre(*id),
        ensures
            self.object_answer(result, *id, r),
    {
        // An override comes first.
        if let Some(override_object) = overridden_object(result) {
            return Some(override_object);
        }
        self.fallback.object_cache_reader.get_object(id)
    }

    /// The reference to the latest version of an object, under an override.
    pub fn latest_ref_under(&self, result: Option<ObjectReadResult>, object_id: ObjectID) -> (r:
        Option<ObjectRef>)
        requires
            !is_cancelled(result),
            match object_in(result) {
                Some(object) => call_requires(self.fallback.object_hash, (&object,)),
                None => self.fallback.object_cache_reader.get_latest_object_ref_or_tombstone_pre(
                    object_id,
                ),
            },
        ensures
            self.latest_ref_answer(result, object_id, r),
    {
        if let Some(override_object) = overridden_object(result) {
            return Some(override_object.compute_object_reference(&self.fallback.object_hash));
        }
        // An override of an object that left consensus holds no digest, and the
        // object is still there in the fallback.
        self.fallback.object_cache_reader.get_latest_object_ref_or_tombstone(object_id)
    }

    /// The latest state of an object, under an override.
    pub fn latest_under(&self, result: Option<ObjectReadResult>, object_id: ObjectID) -> (r: Option<
        (ObjectKey, ObjectOrTombstone),
    >)
        requires
            !is_cancelled(result),
            result is None
                ==> self.fallback.object_cache_reader.get_latest_object_or_tombstone_pre(object_id),
            is_stream_ended(result) ==> self.fallback.object_cache_reader.get_object_pre(object_id)
                && hashes_every_object(self.fallback.object_hash),
        ensures
            self.latest_answer(result, object_id, r),
    {
        if let Some(override_object) = result {
            match override_object.object {
                ObjectReadResultKind::Object(object) => {
                    return Some((object.key(), ObjectOrTombstone::Object(object)));
                },
                ObjectReadResultKind::ObjectConsensusStreamEnded(_, _) => {
                    let undeleted: Option<Object> = self.fallback.object_cache_reader.get_object(
                        &object_id,
                    );
                    return compute_tombstone(undeleted, &self.fallback.object_hash);
                },
                ObjectReadResultKind::CancelledTransactionSharedObject(_) => {
                    vstd::pervasive::unreached()
                },
            }
        }
        self.fallback.object_cache_reader.get_latest_object_or_tombstone(object_id)
    }

    /// One version of an object, under an override.
    pub fn version_under(
        &self,
        result: Option<ObjectReadResult>,
        object_id: &ObjectID,
        version: SequenceNumber,
    ) -> (r: Option<Object>)
        requires
            self.may_ask_version(result, *object_id, version),
        ensures
            self.version_answer(result, *object_id, version, r),
    {
        if let Some(override_object) = result {
            match override_object.object {
                ObjectReadResultKind::Object(object) => {
                    if object.version() == version {
                        return Some(object);
                    }
                },
                ObjectReadResultKind::ObjectConsensusStreamEnded(_, _) => {
                    return None;
                },
                ObjectReadResultKind::CancelledTransactionSharedObject(_) => {
                    vstd::pervasive::unreached()
                },
            }
        }
        self.fallback.object_cache_reader.get_object_by_key(object_id, version)
    }

    /// Several versions, each under its own override.
    pub fn versions_under(
        &self,
        results: Vec<Option<ObjectReadResult>>,
        object_keys: &[ObjectKey],
    ) -> (r: Vec<Option<Object>>)
        requires
            results@.len() == object_keys@.len(),
            forall|i: int|
                0 <= i < object_keys@.len() ==> self.may_ask_version(
                    results@[i],
                    (#[trigger] object_keys@[i]).0,
                    object_keys@[i].1,
                ),
        ensures
            self.versions_answer(results@, object_keys@, r@),
    {
        let ghost all = results@;
        let mut found: Vec<Option<Object>> = Vec::new();
        for result in iter: results
            invariant
                iter.seq() == all,
                all.len() == object_keys@.len(),
                found@.len() == iter.index(),
                forall|i: int|
                    0 <= i < object_keys@.len() ==> self.may_ask_version(
                        all[i],
                        (#[trigger] object_keys@[i]).0,
                        object_keys@[i].1,
                    ),
                forall|i: int|
                    0 <= i < found@.len() ==> self.version_answer(
                        all[i],
                        object_keys@[i].0,
                        object_keys@[i].1,
                        #[trigger] found@[i],
                    ),
        {
            let object_key: ObjectKey = object_keys[found.len()];
            found.push(self.version_under(result, &object_key.0, object_key.1));
        }
        found
    }

    /// Whether each of several versions exists, each under its own override.
    pub fn existences_under(
        &self,
        results: Vec<Option<ObjectReadResult>>,
        object_keys: &[ObjectKey],
    ) -> (r: Vec<bool>)
        requires
            results@.len() == object_keys@.len(),
            forall|i: int|
                0 <= i < object_keys@.len() ==> self.may_ask_version(
                    results@[i],
                    (#[trigger] object_keys@[i]).0,
                    object_keys@[i].1,
                ),
        ensures
            self.existences_answer(results@, object_keys@, r@),
    {
        let ghost all = results@;
        let mut exist: Vec<bool> = Vec::new();
        for result in iter: results
            invariant
                iter.seq() == all,
                all.len() == object_keys@.len(),
                exist@.len() == iter.index(),
                forall|i: int|
                    0 <= i < object_keys@.len() ==> self.may_ask_version(
                        all[i],
                        (#[trigger] object_keys@[i]).0,
                        object_keys@[i].1,
                    ),
                forall|i: int|
                    0 <= i < exist@.len() ==> self.existence_answer(
                        all[i],
                        object_keys@[i].0,
                        object_keys@[i].1,
                        #[trigger] exist@[i],
                    ),
        {
            let object_key: ObjectKey = object_keys[exist.len()];
            let found: Option<Object> = self.version_under(result, &object_key.0, object_key.1);
            exist.push(found.is_some());
        }
        exist
    }

    /// Whether references are live, each under its own override.
    pub fn liveness_under(
        &self,
        results: Vec<Option<ObjectReadResult>>,
        owned_object_refs: &[ObjectRef],
    ) -> (r: SuiResult<()>)
        requires
            results@.len() == owned_object_refs@.len(),
            forall|i: int|
                0 <= i < owned_object_refs@.len() && self.are_live(
                    results@,
                    owned_object_refs@,
                    i,
                ) ==> self.may_ask_version(
                    results@[i],
                    (#[trigger] owned_object_refs@[i]).0,
                    owned_object_refs@[i].1,
                ),
        ensures
            self.liveness_answer(results@, owned_object_refs@, r),
    {
        let ghost all = results@;
        let mut i: usize = 0;
        for result in iter: results
            invariant
                iter.seq() == all,
                all.len() == owned_object_refs@.len(),
                i == iter.index(),
                i <= owned_object_refs@.len(),
                forall|j: int|
                    0 <= j < owned_object_refs@.len() && self.are_live(all, owned_object_refs@, j)
                        ==> self.may_ask_version(
                        all[j],
                        (#[trigger] owned_object_refs@[j]).0,
                        owned_object_refs@[j].1,
                    ),
                self.are_live(all, owned_object_refs@, i as int),
        {
            let owned_object_ref: ObjectRef = owned_object_refs[i];
            let found: Option<Object> = self.version_under(
                result,
                &owned_object_ref.0,
                owned_object_ref.1,
            );
            if found.is_none() {
                return Err(
                    SuiError::UserInputError {
                        error: UserInputError::ObjectVersionUnavailableForConsumption {
                            provided_obj_ref: owned_object_ref,
                            current_version: owned_object_ref.1,
                        },
                    },
                );
            }
            i = i + 1;
        }
        Ok(())
    }

    /// The reference to the live version of an object, under an override.
    pub fn live_ref_under(&self, result: Option<ObjectReadResult>, object_id: ObjectID) -> (r:
        SuiResult<ObjectRef>)
        requires
            !is_cancelled(result),
            object_in(result) matches Some(object) ==> call_requires(
                self.fallback.object_hash,
                (&object,),
            ),
            result is None ==> self.fallback.object_cache_reader.get_live_objref_pre(object_id),
        ensures
            self.live_ref_answer(result, object_id, r),
    {
        if let Some(override_object) = result {
            match override_object.object {
                ObjectReadResultKind::Object(object) => {
                    return Ok(object.compute_object_reference(&self.fallback.object_hash));
                },
                ObjectReadResultKind::ObjectConsensusStreamEnded(_, _) => {
                    return Err(
                        SuiError::UserInputError {
                            error: UserInputError::ObjectNotFound { object_id, version: None },
                        },
                    );
                },
                ObjectReadResultKind::CancelledTransactionSharedObject(_) => {
                    vstd::pervasive::unreached()
                },
            }
        }
        self.fallback.object_cache_reader._get_live_objref(object_id)
    }

    /// The greatest version of an object up to a bound, for the latest object
    /// that was found.
    pub fn bounded_under(
        &self,
        latest: Option<Object>,
        object_id: ObjectID,
        version: SequenceNumber,
    ) -> (r: Option<Object>)
        requires
            latest matches Some(object) && version.value < object.version().value
                ==> self.fallback.object_cache_reader.find_object_lt_or_eq_version_pre(
                object_id,
                version,
            ),
        ensures
            self.bounded_answer(latest, object_id, version, r),
    {
        let object: Object = match latest {
            Some(object) => object,
            None => {
                return None;
            },
        };
        if object.version().value <= version.value {
            return Some(object);
        }
        self.fallback.object_cache_reader.find_object_lt_or_eq_version(object_id, version)
    }

    /// What a lookup says under an override that it may have is what it may say.
    proof fn lemma_existence_under_override(
        &self,
        result: Option<ObjectReadResult>,
        id: ObjectID,
        version: SequenceNumber,
        r: bool,
    )
        requires
            self.override_may_be(id, result),
            self.existence_answer(result, id, version, r),
        ensures
            self.object_exists_by_key_post(id, version, r),
            r ==> exists|object: Object| self.get_object_by_key_post(id, version, Some(object)),
            !r ==> self.get_object_by_key_post(id, version, None),
    {
        let found = choose|found: Option<Object>| #[trigger]
            self.version_answer(result, id, version, found) && r == found is Some;
        assert(self.get_object_by_key_post(id, version, found));
        if r {
            assert(self.get_object_by_key_post(id, version, Some(found->0)));
        }
    }

    /// Whether a request for the version that a reference names may find one.
    pub open spec fn may_be_live(&self, object_ref: ObjectRef) -> bool {
        exists|object: Object|
            self.get_object_by_key_post(object_ref.0, object_ref.1, Some(object))
    }

    /// Whether a request for the version that a reference names may find none.
    pub open spec fn may_be_unavailable(&self, object_ref: ObjectRef) -> bool {
        self.get_object_by_key_post(object_ref.0, object_ref.1, None)
    }
}

impl<R: ObjectCacheRead, H: Fn(&Object) -> ObjectDigest> ObjectCacheRead for OverrideCache<R, H> {
    type EpochStore = R::EpochStore;

    type LockStatus = R::LockStatus;

    type SystemState = R::SystemState;

    type Bridge = R::Bridge;

    open spec fn get_package_object_pre(&self, id: ObjectID) -> bool {
        &&& !id.is_clock()
        &&& !self.cancelled(id)
        &&& match object_in(self.listed(id)) {
            Some(object) => object.is_package(),
            None => self.fallback.object_cache_reader.get_package_object_pre(id),
        }
    }

    open spec fn get_package_object_post(
        &self,
        id: ObjectID,
        r: SuiResult<Option<PackageObject>>,
    ) -> bool {
        exists|result: Option<ObjectReadResult>| #[trigger]
            self.override_may_be(id, result) && self.package_answer(result, id, r)
    }

    fn get_package_object(&self, id: &ObjectID) -> (r: SuiResult<Option<PackageObject>>) {
        self.package_under(self.get_override(id), id)
    }

    open spec fn force_reload_system_packages_post(
        &self,
        system_package_ids: Seq<ObjectID>,
    ) -> bool {
        self.fallback.object_cache_reader.force_reload_system_packages_post(system_package_ids)
    }

    fn force_reload_system_packages(&self, system_package_ids: &[ObjectID]) {
        self.fallback.object_cache_reader.force_reload_system_packages(system_package_ids)
    }

    open spec fn get_object_pre(&self, id: ObjectID) -> bool {
        &&& !self.cancelled(id)
        &&& self.asks_for_object(id) ==> self.fallback.object_cache_reader.get_object_pre(id)
    }

    open spec fn get_object_post(&self, id: ObjectID, r: Option<Object>) -> bool {
        exists|result: Option<ObjectReadResult>| #[trigger]
            self.override_may_be(id, result) && self.object_answer(result, id, r)
    }

    fn get_object(&self, id: &ObjectID) -> (r: Option<Object>) {
        self.object_under(self.get_override(id), id)
    }

    open spec fn get_latest_object_ref_or_tombstone_pre(&self, object_id: ObjectID) -> bool {
        &&& self.hashes_override(object_id)
        &&& !self.cancelled(object_id)
        &&& self.asks_for_object(object_id)
            ==> self.fallback.object_cache_reader.get_latest_object_ref_or_tombstone_pre(object_id)
    }

    open spec fn get_latest_object_ref_or_tombstone_post(
        &self,
        object_id: ObjectID,
        r: Option<ObjectRef>,
    ) -> bool {
        exists|result: Option<ObjectReadResult>| #[trigger]
            self.override_may_be(object_id, result) && self.latest_ref_answer(result, object_id, r)
    }

    fn get_latest_object_ref_or_tombstone(&self, object_id: ObjectID) -> (r: Option<ObjectRef>) {
        self.latest_ref_under(self.get_override(&object_id), object_id)
    }

    open spec fn get_latest_object_or_tombstone_pre(&self, object_id: ObjectID) -> bool {
        let reader = self.fallback.object_cache_reader;
        &&& !self.cancelled(object_id)
        &&& self.may_lack_override(object_id) ==> reader.get_latest_object_or_tombstone_pre(
            object_id,
        )
        &&& !object_id.is_clock() && is_stream_ended(self.listed(object_id))
            ==> reader.get_object_pre(object_id) && hashes_every_object(self.fallback.object_hash)
    }

    open spec fn get_latest_object_or_tombstone_post(
        &self,
        object_id: ObjectID,
        r: Option<(ObjectKey, ObjectOrTombstone)>,
    ) -> bool {
        exists|result: Option<ObjectReadResult>| #[trigger]
            self.override_may_be(object_id, result) && self.latest_answer(result, object_id, r)
    }

    fn get_latest_object_or_tombstone(&self, object_id: ObjectID) -> (r: Option<
        (ObjectKey, ObjectOrTombstone),
    >) {
        self.latest_under(self.get_override(&object_id), object_id)
    }

    open spec fn get_object_by_key_pre(&self, object_id: ObjectID, version: SequenceNumber) -> bool {
        &&& !self.cancelled(object_id)
        &&& self.asks_for_version(object_id, version)
            ==> self.fallback.object_cache_reader.get_object_by_key_pre(object_id, version)
    }

    open spec fn get_object_by_key_post(
        &self,
        object_id: ObjectID,
        version: SequenceNumber,
        r: Option<Object>,
    ) -> bool {
        exists|result: Option<ObjectReadResult>| #[trigger]
            self.override_may_be(object_id, result) && self.version_answer(
                result,
                object_id,
                version,
                r,
            )
    }

    fn get_object_by_key(&self, object_id: &ObjectID, version: SequenceNumber) -> (r: Option<
        Object,
    >) {
        self.version_under(self.get_override(object_id), object_id, version)
    }

    open spec fn multi_get_objects_by_key_pre(&self, object_keys: Seq<ObjectKey>) -> bool {
        forall|i: int|
            0 <= i < object_keys.len() ==> self.get_object_by_key_pre(
                (#[trigger] object_keys[i]).0,
                object_keys[i].1,
            )
    }

    open spec fn multi_get_objects_by_key_post(
        &self,
        object_keys: Seq<ObjectKey>,
        r: Seq<Option<Object>>,
    ) -> bool {
        &&& r.len() == object_keys.len()
        &&& forall|i: int|
            0 <= i < r.len() ==> self.get_object_by_key_post(
                object_keys[i].0,
                object_keys[i].1,
                #[trigger] r[i],
            )
    }

    fn multi_get_objects_by_key(&self, object_keys: &[ObjectKey]) -> (r: Vec<Option<Object>>) {
        let results: Vec<Option<ObjectReadResult>> = self.get_overrides(object_keys);
        assert forall|i: int| 0 <= i < object_keys@.len() implies self.may_ask_version(
            results@[i],
            (#[trigger] object_keys@[i]).0,
            object_keys@[i].1,
        ) by {
            assert(self.override_may_be(object_keys@[i].0, results@[i]));
        }
        let ghost all = results@;
        let found: Vec<Option<Object>> = self.versions_under(results, object_keys);
        assert forall|i: int| 0 <= i < found@.len() implies self.get_object_by_key_post(
            object_keys@[i].0,
            object_keys@[i].1,
            #[trigger] found@[i],
        ) by {
            assert(self.override_may_be(object_keys@[i].0, all[i]));
        }
        found
    }

    open spec fn object_exists_by_key_pre(
        &self,
        object_id: ObjectID,
        version: SequenceNumber,
    ) -> bool {
        self.get_object_by_key_pre(object_id, version)
    }

    open spec fn object_exists_by_key_post(
        &self,
        object_id: ObjectID,
        version: SequenceNumber,
        r: bool,
    ) -> bool {
        exists|found: Option<Object>| #[trigger]
            self.get_object_by_key_post(object_id, version, found) && r == found is Some
    }

    fn object_exists_by_key(&self, object_id: &ObjectID, version: SequenceNumber) -> (r: bool) {
        let found: Option<Object> = ObjectCacheRead::get_object_by_key(self, object_id, version);
        found.is_some()
    }

    open spec fn multi_object_exists_by_key_pre(&self, object_keys: Seq<ObjectKey>) -> bool {
        self.multi_get_objects_by_key_pre(object_keys)
    }

    open spec fn multi_object_exists_by_key_post(
        &self,
        object_keys: Seq<ObjectKey>,
        r: Seq<bool>,
    ) -> bool {
        &&& r.len() == object_keys.len()
        &&& forall|i: int|
            0 <= i < r.len() ==> self.object_exists_by_key_post(
                object_keys[i].0,
                object_keys[i].1,
                #[trigger] r[i],
            )
    }

    fn multi_object_exists_by_key(&self, object_keys: &[ObjectKey]) -> (r: Vec<bool>) {
        let results: Vec<Option<ObjectReadResult>> = self.get_overrides(object_keys);
        assert forall|i: int| 0 <= i < object_keys@.len() implies self.may_ask_version(
            results@[i],
            (#[trigger] object_keys@[i]).0,
            object_keys@[i].1,
        ) by {
            assert(self.override_may_be(object_keys@[i].0, results@[i]));
        }
        let ghost all = results@;
        let exist: Vec<bool> = self.existences_under(results, object_keys);
        assert forall|i: int| 0 <= i < exist@.len() implies self.object_exists_by_key_post(
            object_keys@[i].0,
            object_keys@[i].1,
            #[trigger] exist@[i],
        ) by {
            self.lemma_existence_under_override(
                all[i],
                object_keys@[i].0,
                object_keys@[i].1,
                exist@[i],
            );
        }
        exist
    }

    open spec fn multi_input_objects_available_cache_only_post(
        &self,
        keys: Seq<InputKey>,
        r: Seq<bool>,
    ) -> bool {
        self.fallback.object_cache_reader.multi_input_objects_available_cache_only_post(keys, r)
    }

    fn multi_input_objects_available_cache_only(&self, keys: &[InputKey]) -> (r: Vec<bool>) {
        self.fallback.object_cache_reader.multi_input_objects_available_cache_only(keys)
    }

    open spec fn find_object_lt_or_eq_version_pre(
        &self,
        object_id: ObjectID,
        version: SequenceNumber,
    ) -> bool {
        &&& self.get_object_pre(object_id)
        &&& (exists|object: Object| #[trigger]
            self.get_object_post(object_id, Some(object)) && version.value < object.version().value)
            ==> self.fallback.object_cache_reader.find_object_lt_or_eq_version_pre(
            object_id,
            version,
        )
    }

    open spec fn find_object_lt_or_eq_version_post(
        &self,
        object_id: ObjectID,
        version: SequenceNumber,
        r: Option<Object>,
    ) -> bool {
        exists|latest: Option<Object>| #[trigger]
            self.get_object_post(object_id, latest) && self.bounded_answer(
                latest,
                object_id,
                version,
                r,
            )
    }

    fn find_object_lt_or_eq_version(&self, object_id: ObjectID, version: SequenceNumber) -> (r:
        Option<Object>) {
        let latest: Option<Object> = ObjectCacheRead::get_object(self, &object_id);
        assert(self.get_object_post(object_id, latest));
        self.bounded_under(latest, object_id, version)
    }

    open spec fn get_lock_post(
        &self,
        obj_ref: ObjectRef,
        epoch_store: &Self::EpochStore,
        r: SuiResult<Self::LockStatus>,
    ) -> bool {
        self.fallback.object_cache_reader.get_lock_post(obj_ref, epoch_store, r)
    }

    fn get_lock(&self, obj_ref: ObjectRef, epoch_store: &Self::EpochStore) -> (r: SuiResult<
        Self::LockStatus,
    >) {
        self.fallback.object_cache_reader.get_lock(obj_ref, epoch_store)
    }

    open spec fn get_live_objref_pre(&self, object_id: ObjectID) -> bool {
        &&& self.hashes_override(object_id)
        &&& !self.cancelled(object_id)
        &&& self.may_lack_override(object_id)
            ==> self.fallback.object_cache_reader.get_live_objref_pre(object_id)
    }

    open spec fn get_live_objref_post(&self, object_id: ObjectID, r: SuiResult<ObjectRef>) -> bool {
        exists|result: Option<ObjectReadResult>| #[trigger]
            self.override_may_be(object_id, result) && self.live_ref_answer(result, object_id, r)
    }

    fn _get_live_objref(&self, object_id: ObjectID) -> (r: SuiResult<ObjectRef>) {
        self.live_ref_under(self.get_override(&object_id), object_id)
    }

    open spec fn check_owned_objects_are_live_pre(
        &self,
        owned_object_refs: Seq<ObjectRef>,
    ) -> bool {
        forall|i: int|
            0 <= i < owned_object_refs.len() && (forall|j: int|
                0 <= j < i ==> self.may_be_live(#[trigger] owned_object_refs[j]))
                ==> self.get_object_by_key_pre(
                (#[trigger] owned_object_refs[i]).0,
                owned_object_refs[i].1,
            )
    }

    open spec fn check_owned_objects_are_live_post(
        &self,
        owned_object_refs: Seq<ObjectRef>,
        r: SuiResult<()>,
    ) -> bool {
        match r {
            Ok(_) => forall|i: int|
                0 <= i < owned_object_refs.len() ==> self.may_be_live(
                    #[trigger] owned_object_refs[i],
                ),
            Err(error) => exists|i: int|
                {
                    &&& 0 <= i < owned_object_refs.len()
                    &&& self.may_be_unavailable(#[trigger] owned_object_refs[i])
                    &&& error == unavailable(owned_object_refs[i])
                    &&& forall|j: int|
                        0 <= j < i ==> self.may_be_live(#[trigger] owned_object_refs[j])
                },
        }
    }

    fn check_owned_objects_are_live(&self, owned_object_refs: &[ObjectRef]) -> (r: SuiResult<()>) {
        let mut object_keys: Vec<ObjectKey> = Vec::new();
        for i in 0..owned_object_refs.len()
            invariant
                object_keys@.len() == i,
                forall|j: int|
                    0 <= j < i ==> #[trigger] object_keys@[j] == ObjectKey::of_ref(
                        owned_object_refs@[j],
                    ),
        {
            object_keys.push(ObjectKey::from_ref(&owned_object_refs[i]));
        }
        let results: Vec<Option<ObjectReadResult>> = self.get_overrides(object_keys.as_slice());
        let ghost all = results@;
        assert forall|i: int, r: bool| 0 <= i < owned_object_refs@.len() && #[trigger]
            self.existence_answer(
                all[i],
                owned_object_refs@[i].0,
                owned_object_refs@[i].1,
                r,
            ) implies self.object_exists_by_key_post(
            owned_object_refs@[i].0,
            owned_object_refs@[i].1,
            r,
        ) && (if r {
            self.may_be_live(owned_object_refs@[i])
        } else {
            self.may_be_unavailable(owned_object_refs@[i])
        }) by {
            assert(object_keys@[i] == ObjectKey::of_ref(owned_object_refs@[i]));
            self.lemma_existence_under_override(
                all[i],
                owned_object_refs@[i].0,
                owned_object_refs@[i].1,
                r,
            );
        }
        assert forall|i: int|
            0 <= i < owned_object_refs@.len() && self.are_live(
                all,
                owned_object_refs@,
                i,
            ) implies self.may_ask_version(
            all[i],
            (#[trigger] owned_object_refs@[i]).0,
            owned_object_refs@[i].1,
        ) by {
            assert(object_keys@[i] == ObjectKey::of_ref(owned_object_refs@[i]));
            assert(self.override_may_be(owned_object_refs@[i].0, all[i]));
            assert(self.get_object_by_key_pre(owned_object_refs@[i].0, owned_object_refs@[i].1));
        }
        self.liveness_under(results, owned_object_refs)
    }

    open spec fn get_sui_system_state_object_unsafe_post(
        &self,
        r: SuiResult<Self::SystemState>,
    ) -> bool {
        self.fallback.object_cache_reader.get_sui_system_state_object_unsafe_post(r)
    }

    fn get_sui_system_state_object_unsafe(&self) -> (r: SuiResult<Self::SystemState>) {
        self.fallback.object_cache_reader.get_sui_system_state_object_unsafe()
    }

    open spec fn get_bridge_object_unsafe_post(&self, r: SuiResult<Self::Bridge>) -> bool {
        self.fallback.object_cache_reader.get_bridge_object_unsafe_post(r)
    }

    fn get_bridge_object_unsafe(&self) -> (r: SuiResult<Self::Bridge>) {
        self.fallback.object_cache_reader.get_bridge_object_unsafe()
    }

    open spec fn get_marker_value_post(
        &self,
        object_key: FullObjectKey,
        epoch_id: EpochId,
        r: Option<MarkerValue>,
    ) -> bool {
        self.fallback.object_cache_reader.get_marker_value_post(object_key, epoch_id, r)
    }

    fn get_marker_value(&self, object_key: FullObjectKey, epoch_id: EpochId) -> (r: Option<
        MarkerValue,
    >) {
        self.fallback.object_cache_reader.get_marker_value(object_key, epoch_id)
    }

    open spec fn get_latest_marker_post(
        &self,
        object_id: FullObjectID,
        epoch_id: EpochId,
        r: Option<(SequenceNumber, MarkerValue)>,
    ) -> bool {
        self.fallback.object_cache_reader.get_latest_marker_post(object_id, epoch_id, r)
    }

    fn get_latest_marker(&self, object_id: FullObjectID, epoch_id: EpochId) -> (r: Option<
        (SequenceNumber, MarkerValue),
    >) {
        self.fallback.object_cache_reader.get_latest_marker(object_id, epoch_id)
    }

    open spec fn get_highest_pruned_checkpoint_post(
        &self,
        r: Option<CheckpointSequenceNumber>,
    ) -> bool {
        self.fallback.object_cache_reader.get_highest_pruned_checkpoint_post(r)
    }

    fn get_highest_pruned_checkpoint(&self) -> (r: Option<CheckpointSequenceNumber>) {
        self.fallback.object_cache_reader.get_highest_pruned_checkpoint()
    }
}

impl<
    R: ObjectCacheRead,
    H: Fn(&Object) -> ObjectDigest,
> BackingPackageStore for OverrideCache<R, H> {
    open spec fn package_pre(&self, package_id: ObjectID) -> bool {
        self.get_package_object_pre(package_id)
    }

    open spec fn package_post(
        &self,
        package_id: ObjectID,
        r: SuiResult<Option<PackageObject>>,
    ) -> bool {
        self.get_package_object_post(package_id, r)
    }

    fn get_package_object(&self, package_id: &ObjectID) -> (r: SuiResult<Option<PackageObject>>) {
        ObjectCacheRead::get_package_object(self, package_id)
    }
}

impl<R: ObjectCacheRead, H: Fn(&Object) -> ObjectDigest> ObjectStore for OverrideCache<R, H> {
    open spec fn object_pre(&self, object_id: ObjectID) -> bool {
        self.get_object_pre(object_id)
    }

    open spec fn object_post(&self, object_id: ObjectID, r: Option<Object>) -> bool {
        self.get_object_post(object_id, r)
    }

    fn get_object(&self, object_id: &ObjectID) -> (r: Option<Object>) {
        ObjectCacheRead::get_object(self, object_id)
    }

    open spec fn object_by_key_pre(&self, object_id: ObjectID, version: VersionNumber) -> bool {
        self.get_object_by_key_pre(object_id, version)
    }

    open spec fn object_by_key_post(
        &self,
        object_id: ObjectID,
        version: VersionNumber,
        r: Option<Object>,
    ) -> bool {
        self.get_object_by_key_post(object_id, version, r)
    }

    fn get_object_by_key(&self, object_id: &ObjectID, version: VersionNumber) -> (r: Option<
        Object,
    >) {
        ObjectCacheRead::get_object_by_key(self, object_id, version)
    }
}

impl<
    R: ObjectCacheRead,
    H: Fn(&Object) -> ObjectDigest,
> ChildObjectResolver for OverrideCache<R, H> {
    open spec fn child_pre(
        &self,
        parent: ObjectID,
        child: ObjectID,
        child_version_upper_bound: SequenceNumber,
    ) -> bool {
        self.find_object_lt_or_eq_version_pre(child, child_version_upper_bound)
    }

    open spec fn child_post(
        &self,
        parent: ObjectID,
        child: ObjectID,
        child_version_upper_bound: SequenceNumber,
        r: SuiResult<Option<Object>>,
    ) -> bool {
        exists|found: Option<Object>| #[trigger]
            self.find_object_lt_or_eq_version_post(child, child_version_upper_bound, found) && r
                == child_access(parent, child, found)
    }

    fn read_child_object(
        &self,
        parent: &ObjectID,
        child: &ObjectID,
        child_version_upper_bound: SequenceNumber,
    ) -> (r: SuiResult<Option<Object>>) {
        let found: Option<Object> = self.find_object_lt_or_eq_version(
            *child,
            child_version_upper_bound,
        );
        assert(self.find_object_lt_or_eq_version_post(*child, child_version_upper_bound, found));
        check_child_access(parent, child, found)
    }

    open spec fn receive_pre(
        &self,
        owner: ObjectID,
        receiving_object_id: ObjectID,
        receive_object_at_version: SequenceNumber,
        epoch_id: EpochId,
    ) -> bool {
        self.get_object_by_key_pre(receiving_object_id, receive_object_at_version)
    }

    open spec fn receive_post(
        &self,
        owner: ObjectID,
        receiving_object_id: ObjectID,
        receive_object_at_version: SequenceNumber,
        epoch_id: EpochId,
        r: SuiResult<Option<Object>>,
    ) -> bool {
        let key = FullObjectKey::Fastpath(
            ObjectKey(receiving_object_id, receive_object_at_version),
        );
        exists|found: Option<Object>| #[trigger]
            self.get_object_by_key_post(receiving_object_id, receive_object_at_version, found) && (
            if is_addressed_to(owner, found) {
                exists|marker: Option<MarkerValue>| #[trigger]
                    self.get_marker_value_post(key, epoch_id, marker) && r == Ok::<_, SuiError>(
                        receipt(owner, found, is_received(marker)),
                    )
            } else {
                r == Ok::<_, SuiError>(receipt(owner, found, false))
            })
    }

    fn get_object_received_at_version(
        &self,
        owner: &ObjectID,
        receiving_object_id: &ObjectID,
        receive_object_at_version: SequenceNumber,
        epoch_id: EpochId,
    ) -> (r: SuiResult<Option<Object>>) {
        let found: Option<Object> = ObjectCacheRead::get_object_by_key(
            self,
            receiving_object_id,
            receive_object_at_version,
        );
        assert(self.get_object_by_key_post(*receiving_object_id, receive_object_at_version, found));
        // Only an object of the receiver is looked up among the received ones.
        let received: bool = match &found {
            Some(object) => object.inner.owner == Owner::AddressOwner(owner.to_address())
                && self.have_received_object_at_version(
                FullObjectKey::Fastpath(ObjectKey(*receiving_object_id, receive_object_at_version)),
                epoch_id,
            ),
            None => false,
        };
        check_receipt(owner, found, received)
    }
}

} // verus!
