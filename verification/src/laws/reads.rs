//! What the reads of the cache give.
use crate::base_types::{CheckpointSequenceNumber, EpochId, ObjectID, SequenceNumber};
use crate::clock::is_reading;
use crate::error::{SuiError, SuiResult, UserInputError};
use crate::laws::values::{is_clock_at, law_clock_override_is_read_at_its_reading};
use crate::laws::{law_override_object_wins, law_unlisted_object_is_read_from_fallback};
use crate::object::{
    Object, ObjectDigest, ObjectKey, ObjectOrTombstone, ObjectRef, Owner, PackageObject,
};
use crate::override_cache::{object_in, OverrideCache};
use crate::storage::{
    BackingPackageStore, ChildObjectResolver, FullObjectID, FullObjectKey, InputKey, MarkerValue,
    ObjectCacheRead, ObjectStore,
};
use crate::transaction::{InputObjectKind, ObjectReadResult, ObjectReadResultKind};
use vstd::prelude::*;

verus! {

broadcast use vstd::array::group_array_axioms;

/// A search up to a bound starts at the latest object that a read finds: that is
/// the answer if it is within the bound, and else the fallback searches. Without a
/// latest object nothing is found.
pub proof fn law_search_starts_at_the_latest<R: ObjectCacheRead, H: Fn(&Object) -> ObjectDigest>(
    cache: OverrideCache<R, H>,
    id: ObjectID,
    bound: SequenceNumber,
    r: Option<Object>,
)
    ensures
        cache.find_object_lt_or_eq_version_post(id, bound, r) <==> exists|latest: Option<Object>|
            #[trigger] cache.get_object_post(id, latest) && match latest {
                Some(object) => if object.version().value <= bound.value {
                    r == Some(object)
                } else {
                    cache.fallback.object_cache_reader.find_object_lt_or_eq_version_post(
                        id,
                        bound,
                        r,
                    )
                },
                None => r is None,
            },
{
}

/// Where no override gives an object, a search up to a bound starts at the latest
/// object of the fallback: that is the answer if it is within the bound, and else
/// the fallback searches. Without a latest object nothing is found.
pub proof fn law_search_without_override<R: ObjectCacheRead, H: Fn(&Object) -> ObjectDigest>(
    cache: OverrideCache<R, H>,
    id: ObjectID,
    bound: SequenceNumber,
    r: Option<Object>,
)
    requires
        !id.is_clock(),
        cache.overrides@.contains_key(id)
            ==> cache.overrides@[id].object is ObjectConsensusStreamEnded,
    ensures
        ({
            let reader = cache.fallback.object_cache_reader;
            cache.find_object_lt_or_eq_version_post(id, bound, r) <==> exists|
                latest: Option<Object>,
            | #[trigger]
                reader.get_object_post(id, latest) && match latest {
                    Some(object) => if object.version().value <= bound.value {
                        r == Some(object)
                    } else {
                        reader.find_object_lt_or_eq_version_post(id, bound, r)
                    },
                    None => r is None,
                }
        }),
{
    let reader = cache.fallback.object_cache_reader;
    let result = cache.listed(id);
    assert(cache.override_may_be(id, result));
    assert forall|latest: Option<Object>| #[trigger]
        reader.get_object_post(id, latest) implies cache.get_object_post(id, latest) by {
        assert(cache.object_answer(result, id, latest));
    }
    if cache.find_object_lt_or_eq_version_post(id, bound, r) {
        let latest = choose|latest: Option<Object>| #[trigger]
            cache.get_object_post(id, latest) && cache.bounded_answer(latest, id, bound, r);
        assert(reader.get_object_post(id, latest));
    }
}

/// Where no override gives an object and the latest version is above the bound,
/// a search finds what the fallback finds for the same bound.
pub proof fn law_search_below_latest_is_the_fallbacks<
    R: ObjectCacheRead,
    H: Fn(&Object) -> ObjectDigest,
>(
    cache: OverrideCache<R, H>,
    id: ObjectID,
    bound: SequenceNumber,
    r: Option<Object>,
)
    requires
        !id.is_clock(),
        cache.overrides@.contains_key(id)
            ==> cache.overrides@[id].object is ObjectConsensusStreamEnded,
        exists|latest: Option<Object>| #[trigger]
            cache.fallback.object_cache_reader.get_object_post(id, latest),
        forall|latest: Option<Object>| #[trigger]
            cache.fallback.object_cache_reader.get_object_post(id, latest) ==> (
            latest matches Some(object) && bound.value < object.version().value),
    ensures
        cache.find_object_lt_or_eq_version_post(id, bound, r)
            <==> cache.fallback.object_cache_reader.find_object_lt_or_eq_version_post(id, bound, r),
{
    law_search_without_override(cache, id, bound, r);
}

/// A search for an overridden object never gives more than the fallback would
/// below the version of the override, and never less: two caches that override
/// an object at versions above the bound find the same.
pub proof fn law_search_ignores_overrides_above_bound<
    R: ObjectCacheRead,
    H: Fn(&Object) -> ObjectDigest,
>(
    first: OverrideCache<R, H>,
    second: OverrideCache<R, H>,
    id: ObjectID,
    bound: SequenceNumber,
    r: Option<Object>,
)
    requires
        !id.is_clock(),
        first.fallback == second.fallback,
        first.overrides@.contains_key(id),
        first.overrides@[id].object matches ObjectReadResultKind::Object(object) && bound.value
            < object.version().value,
        second.overrides@.contains_key(id),
        second.overrides@[id].object matches ObjectReadResultKind::Object(object) && bound.value
            < object.version().value,
    ensures
        first.find_object_lt_or_eq_version_post(id, bound, r)
            <==> second.find_object_lt_or_eq_version_post(id, bound, r),
{
    law_override_object_wins(first, id, first.overrides@[id].object->Object_0);
    law_override_object_wins(second, id, second.overrides@[id].object->Object_0);
}

/// Reading several versions gives for each what reading it alone may give.
pub proof fn law_many_reads_are_single_reads<R: ObjectCacheRead, H: Fn(&Object) -> ObjectDigest>(
    cache: OverrideCache<R, H>,
    keys: Seq<ObjectKey>,
    r: Seq<Option<Object>>,
)
    ensures
        cache.multi_get_objects_by_key_post(keys, r) <==> r.len() == keys.len() && forall|i: int|
            0 <= i < keys.len() ==> cache.get_object_by_key_post(
                (#[trigger] keys[i]).0,
                keys[i].1,
                r[i],
            ),
{
    if r.len() == keys.len() && forall|i: int|
        0 <= i < keys.len() ==> cache.get_object_by_key_post(
            (#[trigger] keys[i]).0,
            keys[i].1,
            r[i],
        ) {
        assert forall|i: int| 0 <= i < r.len() implies cache.get_object_by_key_post(
            keys[i].0,
            keys[i].1,
            #[trigger] r[i],
        ) by {
            assert(0 <= i < keys.len());
            let key = keys[i];
        }
    }
    if cache.multi_get_objects_by_key_post(keys, r) {
        assert forall|i: int| 0 <= i < keys.len() implies cache.get_object_by_key_post(
            (#[trigger] keys[i]).0,
            keys[i].1,
            r[i],
        ) by {
            let found = r[i];
        }
    }
}

/// Asking of several versions whether they exist says of each whether reading it
/// alone may find it.
pub proof fn law_many_existences_are_single_reads<
    R: ObjectCacheRead,
    H: Fn(&Object) -> ObjectDigest,
>(
    cache: OverrideCache<R, H>,
    keys: Seq<ObjectKey>,
    r: Seq<bool>,
)
    requires
        cache.multi_object_exists_by_key_post(keys, r),
    ensures
        r.len() == keys.len(),
        forall|i: int|
            0 <= i < keys.len() && #[trigger] r[i] ==> exists|object: Object|
                cache.get_object_by_key_post(keys[i].0, keys[i].1, Some(object)),
        forall|i: int|
            0 <= i < keys.len() && !#[trigger] r[i] ==> cache.get_object_by_key_post(
                keys[i].0,
                keys[i].1,
                None,
            ),
{
    assert forall|i: int| 0 <= i < keys.len() && #[trigger] r[i] implies exists|object: Object|
        cache.get_object_by_key_post(keys[i].0, keys[i].1, Some(object)) by {
        let found = choose|found: Option<Object>| #[trigger]
            cache.get_object_by_key_post(keys[i].0, keys[i].1, found) && found is Some;
        assert(cache.get_object_by_key_post(keys[i].0, keys[i].1, Some(found->0)));
    }
}

/// What may be said of several versions one by one may be said of them together.
pub proof fn law_single_existences_make_many<R: ObjectCacheRead, H: Fn(&Object) -> ObjectDigest>(
    cache: OverrideCache<R, H>,
    keys: Seq<ObjectKey>,
    r: Seq<bool>,
)
    requires
        r.len() == keys.len(),
        forall|i: int|
            0 <= i < keys.len() ==> if #[trigger] r[i] {
                exists|object: Object|
                    cache.get_object_by_key_post(keys[i].0, keys[i].1, Some(object))
            } else {
                cache.get_object_by_key_post(keys[i].0, keys[i].1, None)
            },
    ensures
        cache.multi_object_exists_by_key_post(keys, r),
{
}

/// A list with a reference of which no read finds the version is refused,
/// wherever in the list it stands.
pub proof fn law_missing_reference_is_not_live<R: ObjectCacheRead, H: Fn(&Object) -> ObjectDigest>(
    cache: OverrideCache<R, H>,
    refs: Seq<ObjectRef>,
    i: int,
    r: SuiResult<()>,
)
    requires
        0 <= i < refs.len(),
        forall|found: Option<Object>| #[trigger]
            cache.get_object_by_key_post(refs[i].0, refs[i].1, found) ==> found is None,
        cache.check_owned_objects_are_live_post(refs, r),
    ensures
        r is Err,
{
    if r is Ok {
        assert(cache.may_be_live(refs[i]));
    }
}

/// A list with a reference to an object that is not overridden, and of which the
/// fallback never has the version, is refused.
pub proof fn law_reference_that_the_fallback_lacks_is_not_live<
    R: ObjectCacheRead,
    H: Fn(&Object) -> ObjectDigest,
>(
    cache: OverrideCache<R, H>,
    refs: Seq<ObjectRef>,
    i: int,
    r: SuiResult<()>,
)
    requires
        0 <= i < refs.len(),
        !refs[i].0.is_clock(),
        !cache.overrides@.contains_key(refs[i].0),
        forall|found: Option<Object>| #[trigger]
            cache.fallback.object_cache_reader.get_object_by_key_post(refs[i].0, refs[i].1, found)
                ==> found is None,
        cache.check_owned_objects_are_live_post(refs, r),
    ensures
        r is Err,
{
    law_unlisted_object_is_read_from_fallback(cache, refs[i].0);
    assert forall|found: Option<Object>| #[trigger]
        cache.get_object_by_key_post(refs[i].0, refs[i].1, found) implies found is None by {
        assert(cache.fallback.object_cache_reader.get_object_by_key_post(
            refs[i].0,
            refs[i].1,
            found,
        ));
    }
    law_missing_reference_is_not_live(cache, refs, i, r);
}

/// A list of references of which every read finds the version is accepted.
pub proof fn law_found_references_are_live<R: ObjectCacheRead, H: Fn(&Object) -> ObjectDigest>(
    cache: OverrideCache<R, H>,
    refs: Seq<ObjectRef>,
    r: SuiResult<()>,
)
    requires
        forall|i: int, found: Option<Object>|
            0 <= i < refs.len() && #[trigger] cache.get_object_by_key_post(
                refs[i].0,
                refs[i].1,
                found,
            ) ==> found is Some,
        cache.check_owned_objects_are_live_post(refs, r),
    ensures
        r is Ok,
{
    if r is Err {
        let i = choose|i: int|
            0 <= i < refs.len() && cache.may_be_unavailable(#[trigger] refs[i]);
        assert(cache.get_object_by_key_post(refs[i].0, refs[i].1, None));
    }
}

/// The error of a refused list names the first reference whose version is not
/// found, and its version.
pub proof fn law_first_missing_reference_is_named<
    R: ObjectCacheRead,
    H: Fn(&Object) -> ObjectDigest,
>(
    cache: OverrideCache<R, H>,
    refs: Seq<ObjectRef>,
    i: int,
    r: SuiResult<()>,
)
    requires
        0 <= i < refs.len(),
        forall|found: Option<Object>| #[trigger]
            cache.get_object_by_key_post(refs[i].0, refs[i].1, found) ==> found is None,
        forall|j: int, found: Option<Object>|
            0 <= j < i && #[trigger] cache.get_object_by_key_post(refs[j].0, refs[j].1, found)
                ==> found is Some,
        cache.check_owned_objects_are_live_post(refs, r),
    ensures
        r == Err::<(), _>(
            SuiError::UserInputError {
                error: UserInputError::ObjectVersionUnavailableForConsumption {
                    provided_obj_ref: refs[i],
                    current_version: refs[i].1,
                },
            },
        ),
{
    law_missing_reference_is_not_live(cache, refs, i, r);
    let k = choose|k: int|
        {
            &&& 0 <= k < refs.len()
            &&& cache.may_be_unavailable(#[trigger] refs[k])
            &&& r == Err::<(), _>(
                SuiError::UserInputError {
                    error: UserInputError::ObjectVersionUnavailableForConsumption {
                        provided_obj_ref: refs[k],
                        current_version: refs[k].1,
                    },
                },
            )
            &&& forall|j: int| 0 <= j < k ==> cache.may_be_live(#[trigger] refs[j])
        };
    if k < i {
        assert(cache.get_object_by_key_post(refs[k].0, refs[k].1, None));
    } else if i < k {
        assert(cache.may_be_live(refs[i]));
    }
}

/// Whether a read of a version may find one.
pub open spec fn may_find<S: ObjectCacheRead>(
    store: S,
    id: ObjectID,
    version: SequenceNumber,
) -> bool {
    exists|object: Object| #[trigger] store.get_object_by_key_post(id, version, Some(object))
}

/// A list is accepted only where each version may be found, and refused only with
/// the error of a reference whose version may not be found while those before it
/// may.
pub proof fn law_liveness_rests_on_reads<R: ObjectCacheRead, H: Fn(&Object) -> ObjectDigest>(
    cache: OverrideCache<R, H>,
    refs: Seq<ObjectRef>,
    r: SuiResult<()>,
)
    ensures
        cache.check_owned_objects_are_live_post(refs, r) <==> match r {
            Ok(_) => forall|i: int|
                0 <= i < refs.len() ==> may_find(cache, (#[trigger] refs[i]).0, refs[i].1),
            Err(error) => exists|i: int|
                {
                    &&& 0 <= i < refs.len()
                    &&& cache.get_object_by_key_post((#[trigger] refs[i]).0, refs[i].1, None)
                    &&& error == SuiError::UserInputError {
                        error: UserInputError::ObjectVersionUnavailableForConsumption {
                            provided_obj_ref: refs[i],
                            current_version: refs[i].1,
                        },
                    }
                    &&& forall|j: int|
                        0 <= j < i ==> may_find(cache, (#[trigger] refs[j]).0, refs[j].1)
                },
        },
{
    assert forall|i: int| 0 <= i < refs.len() implies cache.may_be_live(#[trigger] refs[i])
        == may_find(cache, refs[i].0, refs[i].1) by {}
    assert forall|i: int| 0 <= i < refs.len() implies cache.may_be_unavailable(
        #[trigger] refs[i],
    ) == cache.get_object_by_key_post(refs[i].0, refs[i].1, None) by {}
}

/// A child is given to the object whose id has the 32 bytes of its owner; to any
/// other parent, and where the owner is no object, the read is an error that names
/// child, parent and owner. A child that is not found is none.
pub proof fn law_child_is_given_to_its_owner<R: ObjectCacheRead, H: Fn(&Object) -> ObjectDigest>(
    cache: OverrideCache<R, H>,
    parent: ObjectID,
    child: ObjectID,
    bound: SequenceNumber,
    r: SuiResult<Option<Object>>,
)
    ensures
        cache.child_post(parent, child, bound, r) <==> exists|found: Option<Object>| #[trigger]
            cache.find_object_lt_or_eq_version_post(child, bound, found) && match found {
                Some(object) => if object.inner.owner matches Owner::ObjectOwner(address)
                    && address.bytes == parent.bytes {
                    r == Ok::<_, SuiError>(Some(object))
                } else {
                    r == Err::<Option<Object>, _>(
                        SuiError::InvalidChildObjectAccess {
                            object: child,
                            given_parent: parent,
                            actual_owner: object.inner.owner,
                        },
                    )
                },
                None => r == Ok::<Option<Object>, SuiError>(None),
            },
{
}

/// An object that belongs to the receiver, and of which no record says that it
/// was received, is received: it is what every read of the version finds, and a
/// version without a record, or with another record, was not received.
pub proof fn law_unreceived_object_is_received<R: ObjectCacheRead, H: Fn(&Object) -> ObjectDigest>(
    cache: OverrideCache<R, H>,
    owner: ObjectID,
    id: ObjectID,
    version: SequenceNumber,
    epoch_id: EpochId,
    object: Object,
    r: SuiResult<Option<Object>>,
)
    requires
        forall|found: Option<Object>| #[trigger]
            cache.get_object_by_key_post(id, version, found) ==> found == Some(object),
        object.inner.owner matches Owner::AddressOwner(address) && address.bytes == owner.bytes,
        forall|marker: Option<MarkerValue>| #[trigger]
            cache.fallback.object_cache_reader.get_marker_value_post(
                FullObjectKey::Fastpath(ObjectKey(id, version)),
                epoch_id,
                marker,
            ) ==> match marker {
                None => true,
                Some(MarkerValue::Received) => false,
                Some(MarkerValue::FastpathStreamEnded) => true,
                Some(MarkerValue::ConsensusStreamEnded(_)) => true,
            },
        cache.receive_post(owner, id, version, epoch_id, r),
    ensures
        r == Ok::<_, SuiError>(Some(object)),
{
    let key = FullObjectKey::Fastpath(ObjectKey(id, version));
    assert forall|marker: Option<MarkerValue>| #[trigger]
        cache.get_marker_value_post(key, epoch_id, marker) implies marker != Some(
        MarkerValue::Received,
    ) by {
        assert(cache.fallback.object_cache_reader.get_marker_value_post(key, epoch_id, marker));
    }
}

/// An object that is recorded as received is not received again.
pub proof fn law_received_object_is_not_received_again<
    R: ObjectCacheRead,
    H: Fn(&Object) -> ObjectDigest,
>(
    cache: OverrideCache<R, H>,
    owner: ObjectID,
    id: ObjectID,
    version: SequenceNumber,
    epoch_id: EpochId,
    r: SuiResult<Option<Object>>,
)
    requires
        forall|marker: Option<MarkerValue>| #[trigger]
            cache.fallback.object_cache_reader.get_marker_value_post(
                FullObjectKey::Fastpath(ObjectKey(id, version)),
                epoch_id,
                marker,
            ) ==> marker == Some(MarkerValue::Received),
        cache.receive_post(owner, id, version, epoch_id, r),
    ensures
        r == Ok::<Option<Object>, SuiError>(None),
{
    let key = FullObjectKey::Fastpath(ObjectKey(id, version));
    assert forall|marker: Option<MarkerValue>| #[trigger]
        cache.get_marker_value_post(key, epoch_id, marker) implies marker == Some(
        MarkerValue::Received,
    ) by {
        assert(cache.fallback.object_cache_reader.get_marker_value_post(key, epoch_id, marker));
    }
}

/// What receiving an object may give, by what a read of the version finds, who
/// owns that, and what is recorded of the version in the epoch.
pub proof fn law_receipt_rests_on_owner_and_record<
    R: ObjectCacheRead,
    H: Fn(&Object) -> ObjectDigest,
>(
    cache: OverrideCache<R, H>,
    owner: ObjectID,
    id: ObjectID,
    version: SequenceNumber,
    epoch_id: EpochId,
    r: SuiResult<Option<Object>>,
)
    ensures
        ({
            let key = FullObjectKey::Fastpath(ObjectKey(id, version));
            let reader = cache.fallback.object_cache_reader;
            cache.receive_post(owner, id, version, epoch_id, r) <==> exists|found: Option<Object>|
                #[trigger] cache.get_object_by_key_post(id, version, found) && (
                if found matches Some(object) && object.inner.owner matches Owner::AddressOwner(
                    address,
                ) && address.bytes == owner.bytes {
                    exists|marker: Option<MarkerValue>| #[trigger]
                        reader.get_marker_value_post(key, epoch_id, marker) && r == Ok::<
                            _,
                            SuiError,
                        >(
                            match marker {
                                Some(MarkerValue::Received) => None,
                                _ => found,
                            },
                        )
                } else {
                    r == Ok::<Option<Object>, SuiError>(None)
                })
        }),
{
    let key = FullObjectKey::Fastpath(ObjectKey(id, version));
    let reader = cache.fallback.object_cache_reader;
    assert forall|marker: Option<MarkerValue>| #[trigger]
        cache.get_marker_value_post(key, epoch_id, marker) == reader.get_marker_value_post(
        key,
        epoch_id,
        marker,
    ) by {}
    assert forall|marker: Option<MarkerValue>| #[trigger]
        reader.get_marker_value_post(key, epoch_id, marker) == cache.get_marker_value_post(
        key,
        epoch_id,
        marker,
    ) by {}
}

/// A version was received in an epoch exactly where the record says so: any other
/// record, and none, says that it was not.
pub proof fn law_received_is_what_is_recorded<S: ObjectCacheRead>(
    store: S,
    key: FullObjectKey,
    epoch_id: EpochId,
    r: bool,
)
    requires
        call_ensures(S::have_received_object_at_version, (&store, key, epoch_id), r),
    ensures
        exists|marker: Option<MarkerValue>| #[trigger]
            store.get_marker_value_post(key, epoch_id, marker) && r == match marker {
                None => false,
                Some(MarkerValue::Received) => true,
                Some(MarkerValue::FastpathStreamEnded) => false,
                Some(MarkerValue::ConsensusStreamEnded(_)) => false,
            },
{
}

/// A lookup of the clock gives the clock object for a reading of the system clock,
/// in whole milliseconds since the epoch, named as a shared object that may be
/// changed; it gives nothing only at a reading before the epoch.
pub proof fn law_clock_lookup_shows_its_reading<R: ObjectCacheRead, H: Fn(&Object) -> ObjectDigest>(
    cache: OverrideCache<R, H>,
    id: ObjectID,
    r: Option<ObjectReadResult>,
)
    requires
        id.is_clock(),
        call_ensures(OverrideCache::<R, H>::get_override, (&cache, &id), r),
    ensures
        exists|nanos: Option<u128>| #[trigger]
            is_reading(nanos) && match nanos {
                Some(nanos) => {
                    &&& r matches Some(read)
                    &&& read.input_object_kind matches InputObjectKind::SharedMoveObject {
                        id: named,
                        initial_shared_version,
                        mutable,
                    }
                    &&& named.bytes == id.bytes
                    &&& initial_shared_version.value == 1
                    &&& mutable
                    &&& read.object matches ObjectReadResultKind::Object(object)
                    &&& is_clock_at(object, nanos)
                },
                None => r is None,
            },
{
    let nanos = choose|nanos: Option<u128>| #[trigger]
        is_reading(nanos) && cache.override_at(id, nanos, r);
    law_clock_override_is_read_at_its_reading(cache, id, nanos, r);
}

/// The object of the clock is that of its lookup, and a lookup of the clock for a
/// given reading gives the clock object for that reading.
pub proof fn law_clock_object_is_looked_up<R: ObjectCacheRead, H: Fn(&Object) -> ObjectDigest>(
    cache: OverrideCache<R, H>,
    id: ObjectID,
)
    requires
        id.is_clock(),
    ensures
        forall|r: Option<Object>| #[trigger]
            call_ensures(OverrideCache::<R, H>::get_override_object, (&cache, &id), r) ==> exists|
                nanos: Option<u128>,
            | #[trigger]
                is_reading(nanos) && match nanos {
                    Some(nanos) => r matches Some(object) && is_clock_at(object, nanos),
                    None => r is None,
                },
        forall|nanos: Option<u128>, r: Option<ObjectReadResult>| #[trigger]
            call_ensures(OverrideCache::<R, H>::get_override_at, (&cache, &id, nanos), r)
                ==> match nanos {
                Some(nanos) => {
                    &&& r matches Some(read)
                    &&& read.id() == id
                    &&& read.object matches ObjectReadResultKind::Object(object)
                    &&& is_clock_at(object, nanos)
                },
                None => r is None,
            },
{
    assert forall|r: Option<Object>| #[trigger]
        call_ensures(OverrideCache::<R, H>::get_override_object, (&cache, &id), r) implies exists|
        nanos: Option<u128>,
    | #[trigger]
        is_reading(nanos) && match nanos {
            Some(nanos) => r matches Some(object) && is_clock_at(object, nanos),
            None => r is None,
        } by {
        let result = choose|result: Option<ObjectReadResult>| #[trigger]
            cache.override_may_be(id, result) && r == object_in(result);
        let nanos = choose|nanos: Option<u128>| #[trigger]
            is_reading(nanos) && cache.override_at(id, nanos, result);
        law_clock_override_is_read_at_its_reading(cache, id, nanos, result);
    }
    assert forall|nanos: Option<u128>, r: Option<ObjectReadResult>| #[trigger]
        call_ensures(OverrideCache::<R, H>::get_override_at, (&cache, &id, nanos), r) implies (
    match nanos {
        Some(nanos) => {
            &&& r matches Some(read)
            &&& read.id() == id
            &&& read.object matches ObjectReadResultKind::Object(object)
            &&& is_clock_at(object, nanos)
        },
        None => r is None,
    }) by {
        law_clock_override_is_read_at_its_reading(cache, id, nanos, r);
    }
}

/// A read of the clock shows a reading of the system clock: the object is the
/// clock object for it, in its first version, and so are its references. At a
/// reading before the epoch the fallback is asked, and so it is for a version that
/// is not the first.
pub proof fn law_clock_reads_show_a_reading<R: ObjectCacheRead, H: Fn(&Object) -> ObjectDigest>(
    cache: OverrideCache<R, H>,
    id: ObjectID,
)
    requires
        id.is_clock(),
    ensures
        ({
            let reader = cache.fallback.object_cache_reader;
            let start = SequenceNumber { value: 1 };
            &&& forall|r: Option<Object>| #[trigger]
                cache.get_object_post(id, r) ==> exists|nanos: Option<u128>| #[trigger]
                    is_reading(nanos) && match nanos {
                        Some(nanos) => r matches Some(object) && is_clock_at(object, nanos),
                        None => reader.get_object_post(id, r),
                    }
            &&& forall|r: Option<Object>| #[trigger]
                cache.get_object_by_key_post(id, start, r) ==> exists|nanos: Option<u128>|
                    #[trigger] is_reading(nanos) && match nanos {
                        Some(nanos) => r matches Some(object) && is_clock_at(object, nanos),
                        None => reader.get_object_by_key_post(id, start, r),
                    }
            &&& forall|version: SequenceNumber, r: Option<Object>|
                version.value != 1 && #[trigger] cache.get_object_by_key_post(id, version, r)
                    ==> reader.get_object_by_key_post(id, version, r)
            &&& forall|r: Option<ObjectRef>| #[trigger]
                cache.get_latest_object_ref_or_tombstone_post(id, r) ==> exists|
                    nanos: Option<u128>,
                | #[trigger]
                    is_reading(nanos) && match nanos {
                        Some(nanos) => r matches Some(object_ref) && clock_reference_at(
                            cache.fallback.object_hash,
                            id,
                            nanos,
                            object_ref,
                        ),
                        None => reader.get_latest_object_ref_or_tombstone_post(id, r),
                    }
            &&& forall|r: SuiResult<ObjectRef>| #[trigger]
                cache.get_live_objref_post(id, r) ==> exists|nanos: Option<u128>| #[trigger]
                    is_reading(nanos) && match nanos {
                        Some(nanos) => r matches Ok(object_ref) && clock_reference_at(
                            cache.fallback.object_hash,
                            id,
                            nanos,
                            object_ref,
                        ),
                        None => reader.get_live_objref_post(id, r),
                    }
            &&& forall|r: Option<(ObjectKey, ObjectOrTombstone)>| #[trigger]
                cache.get_latest_object_or_tombstone_post(id, r) ==> exists|nanos: Option<u128>|
                    #[trigger] is_reading(nanos) && match nanos {
                        Some(nanos) => {
                            &&& r matches Some(state)
                            &&& state.0 == ObjectKey(id, start)
                            &&& state.1 matches ObjectOrTombstone::Object(object)
                            &&& is_clock_at(object, nanos)
                        },
                        None => reader.get_latest_object_or_tombstone_post(id, r),
                    }
        }),
{
    let reader = cache.fallback.object_cache_reader;
    let start = SequenceNumber { value: 1 };
    assert forall|nanos: Option<u128>, result: Option<ObjectReadResult>| #[trigger]
        cache.override_at(id, nanos, result) && nanos is Some implies {
        &&& result matches Some(read)
        &&& read.object matches ObjectReadResultKind::Object(object)
        &&& is_clock_at(object, nanos->0)
        &&& object.id() == id
        &&& object.version() == start
    } by {
        law_clock_override_is_read_at_its_reading(cache, id, nanos, result);
    }
    assert forall|result: Option<ObjectReadResult>| #[trigger]
        cache.override_may_be(id, result) implies exists|nanos: Option<u128>| #[trigger]
        is_reading(nanos) && cache.override_at(id, nanos, result) by {}
    assert forall|r: Option<Object>| #[trigger] cache.get_object_post(id, r) implies exists|
        nanos: Option<u128>,
    | #[trigger]
        is_reading(nanos) && match nanos {
            Some(nanos) => r matches Some(object) && is_clock_at(object, nanos),
            None => reader.get_object_post(id, r),
        } by {
        let result = choose|result: Option<ObjectReadResult>| #[trigger]
            cache.override_may_be(id, result) && cache.object_answer(result, id, r);
        let nanos = choose|nanos: Option<u128>| #[trigger]
            is_reading(nanos) && cache.override_at(id, nanos, result);
        assert(is_reading(nanos));
    }
    assert forall|r: Option<Object>| #[trigger]
        cache.get_object_by_key_post(id, start, r) implies exists|nanos: Option<u128>| #[trigger]
        is_reading(nanos) && match nanos {
            Some(nanos) => r matches Some(object) && is_clock_at(object, nanos),
            None => reader.get_object_by_key_post(id, start, r),
        } by {
        let result = choose|result: Option<ObjectReadResult>| #[trigger]
            cache.override_may_be(id, result) && cache.version_answer(result, id, start, r);
        let nanos = choose|nanos: Option<u128>| #[trigger]
            is_reading(nanos) && cache.override_at(id, nanos, result);
        assert(is_reading(nanos));
    }
    assert forall|version: SequenceNumber, r: Option<Object>|
        version.value != 1 && #[trigger] cache.get_object_by_key_post(
            id,
            version,
            r,
        ) implies reader.get_object_by_key_post(id, version, r) by {
        let result = choose|result: Option<ObjectReadResult>| #[trigger]
            cache.override_may_be(id, result) && cache.version_answer(result, id, version, r);
        let nanos = choose|nanos: Option<u128>| #[trigger]
            is_reading(nanos) && cache.override_at(id, nanos, result);
        assert(cache.override_at(id, nanos, result));
    }
    assert forall|r: Option<ObjectRef>| #[trigger]
        cache.get_latest_object_ref_or_tombstone_post(id, r) implies exists|nanos: Option<u128>|
        #[trigger] is_reading(nanos) && match nanos {
            Some(nanos) => r matches Some(object_ref) && clock_reference_at(
                cache.fallback.object_hash,
                id,
                nanos,
                object_ref,
            ),
            None => reader.get_latest_object_ref_or_tombstone_post(id, r),
        } by {
        let result = choose|result: Option<ObjectReadResult>| #[trigger]
            cache.override_may_be(id, result) && cache.latest_ref_answer(result, id, r);
        let nanos = choose|nanos: Option<u128>| #[trigger]
            is_reading(nanos) && cache.override_at(id, nanos, result);
        assert(is_reading(nanos));
        if nanos is Some {
            assert(is_clock_at(result->0.object->Object_0, nanos->0));
        }
    }
    assert forall|r: SuiResult<ObjectRef>| #[trigger]
        cache.get_live_objref_post(id, r) implies exists|nanos: Option<u128>| #[trigger]
        is_reading(nanos) && match nanos {
            Some(nanos) => r matches Ok(object_ref) && clock_reference_at(
                cache.fallback.object_hash,
                id,
                nanos,
                object_ref,
            ),
            None => reader.get_live_objref_post(id, r),
        } by {
        let result = choose|result: Option<ObjectReadResult>| #[trigger]
            cache.override_may_be(id, result) && cache.live_ref_answer(result, id, r);
        let nanos = choose|nanos: Option<u128>| #[trigger]
            is_reading(nanos) && cache.override_at(id, nanos, result);
        assert(is_reading(nanos));
        if nanos is Some {
            assert(is_clock_at(result->0.object->Object_0, nanos->0));
        }
    }
    assert forall|r: Option<(ObjectKey, ObjectOrTombstone)>| #[trigger]
        cache.get_latest_object_or_tombstone_post(id, r) implies exists|nanos: Option<u128>|
        #[trigger] is_reading(nanos) && match nanos {
            Some(nanos) => {
                &&& r matches Some(state)
                &&& state.0 == ObjectKey(id, start)
                &&& state.1 matches ObjectOrTombstone::Object(object)
                &&& is_clock_at(object, nanos)
            },
            None => reader.get_latest_object_or_tombstone_post(id, r),
        } by {
        let result = choose|result: Option<ObjectReadResult>| #[trigger]
            cache.override_may_be(id, result) && cache.latest_answer(result, id, r);
        let nanos = choose|nanos: Option<u128>| #[trigger]
            is_reading(nanos) && cache.override_at(id, nanos, result);
        assert(is_reading(nanos));
    }
}

/// Whether a reference is one to the first version of the clock object for a
/// reading: its digest is one that `hash` may give for that object.
pub open spec fn clock_reference_at<H: Fn(&Object) -> ObjectDigest>(
    hash: H,
    id: ObjectID,
    nanos: u128,
    object_ref: ObjectRef,
) -> bool {
    &&& object_ref.0 == id
    &&& object_ref.1.value == 1
    &&& exists|object: Object| #[trigger]
        is_clock_at(object, nanos) && call_ensures(hash, (&object,), object_ref.2)
}

/// What is not about the objects that may be overridden is the fallback's to
/// answer, and the question is passed on as it is.
pub proof fn law_other_reads_are_passed_on<R: ObjectCacheRead, H: Fn(&Object) -> ObjectDigest>(
    cache: OverrideCache<R, H>,
)
    ensures
        ({
            let reader = cache.fallback.object_cache_reader;
            &&& forall|ids: Seq<ObjectID>| #[trigger]
                cache.force_reload_system_packages_post(ids)
                    <==> reader.force_reload_system_packages_post(ids)
            &&& forall|keys: Seq<InputKey>, r: Seq<bool>| #[trigger]
                cache.multi_input_objects_available_cache_only_post(keys, r)
                    <==> reader.multi_input_objects_available_cache_only_post(keys, r)
            &&& forall|
                obj_ref: ObjectRef,
                epoch_store: &R::EpochStore,
                r: SuiResult<R::LockStatus>,
            | #[trigger]
                cache.get_lock_post(obj_ref, epoch_store, r) <==> reader.get_lock_post(
                    obj_ref,
                    epoch_store,
                    r,
                )
            &&& forall|r: SuiResult<R::SystemState>| #[trigger]
                cache.get_sui_system_state_object_unsafe_post(r)
                    <==> reader.get_sui_system_state_object_unsafe_post(r)
            &&& forall|r: SuiResult<R::Bridge>| #[trigger]
                cache.get_bridge_object_unsafe_post(r) <==> reader.get_bridge_object_unsafe_post(r)
            &&& forall|key: FullObjectKey, epoch_id: EpochId, r: Option<MarkerValue>| #[trigger]
                cache.get_marker_value_post(key, epoch_id, r) <==> reader.get_marker_value_post(
                    key,
                    epoch_id,
                    r,
                )
            &&& forall|
                id: FullObjectID,
                epoch_id: EpochId,
                r: Option<(SequenceNumber, MarkerValue)>,
            | #[trigger]
                cache.get_latest_marker_post(id, epoch_id, r) <==> reader.get_latest_marker_post(
                    id,
                    epoch_id,
                    r,
                )
            &&& forall|r: Option<CheckpointSequenceNumber>| #[trigger]
                cache.get_highest_pruned_checkpoint_post(r)
                    <==> reader.get_highest_pruned_checkpoint_post(r)
        }),
{
}

/// Whatever a call of a read returns is a result that is stated for it.
pub proof fn law_calls_return_stated_results<R: ObjectCacheRead, H: Fn(&Object) -> ObjectDigest>(
    cache: OverrideCache<R, H>,
)
    ensures
        forall|id: ObjectID, r: SuiResult<Option<PackageObject>>| #[trigger]
            call_ensures(
                <OverrideCache<R, H> as ObjectCacheRead>::get_package_object,
                (&cache, &id),
                r,
            ) ==> cache.get_package_object_post(id, r),
        forall|id: ObjectID, r: Option<Object>| #[trigger]
            call_ensures(<OverrideCache<R, H> as ObjectCacheRead>::get_object, (&cache, &id), r)
                ==> cache.get_object_post(id, r),
        forall|id: ObjectID, r: Option<ObjectRef>| #[trigger]
            call_ensures(
                <OverrideCache<R, H> as ObjectCacheRead>::get_latest_object_ref_or_tombstone,
                (&cache, id),
                r,
            ) ==> cache.get_latest_object_ref_or_tombstone_post(id, r),
        forall|id: ObjectID, r: Option<(ObjectKey, ObjectOrTombstone)>| #[trigger]
            call_ensures(
                <OverrideCache<R, H> as ObjectCacheRead>::get_latest_object_or_tombstone,
                (&cache, id),
                r,
            ) ==> cache.get_latest_object_or_tombstone_post(id, r),
        forall|id: ObjectID, version: SequenceNumber, r: Option<Object>| #[trigger]
            call_ensures(
                <OverrideCache<R, H> as ObjectCacheRead>::get_object_by_key,
                (&cache, &id, version),
                r,
            ) ==> cache.get_object_by_key_post(id, version, r),
        forall|id: ObjectID, version: SequenceNumber, r: bool| #[trigger]
            call_ensures(
                <OverrideCache<R, H> as ObjectCacheRead>::object_exists_by_key,
                (&cache, &id, version),
                r,
            ) ==> cache.object_exists_by_key_post(id, version, r),
        forall|id: ObjectID, version: SequenceNumber, r: Option<Object>| #[trigger]
            call_ensures(
                <OverrideCache<R, H> as ObjectCacheRead>::find_object_lt_or_eq_version,
                (&cache, id, version),
                r,
            ) ==> cache.find_object_lt_or_eq_version_post(id, version, r),
        forall|id: ObjectID, r: SuiResult<ObjectRef>| #[trigger]
            call_ensures(
                <OverrideCache<R, H> as ObjectCacheRead>::_get_live_objref,
                (&cache, id),
                r,
            ) ==> cache.get_live_objref_post(id, r),
        forall|keys: &[ObjectKey], r: Vec<Option<Object>>| #[trigger]
            call_ensures(
                <OverrideCache<R, H> as ObjectCacheRead>::multi_get_objects_by_key,
                (&cache, keys),
                r,
            ) ==> cache.multi_get_objects_by_key_post(keys@, r@),
        forall|keys: &[ObjectKey], r: Vec<bool>| #[trigger]
            call_ensures(
                <OverrideCache<R, H> as ObjectCacheRead>::multi_object_exists_by_key,
                (&cache, keys),
                r,
            ) ==> cache.multi_object_exists_by_key_post(keys@, r@),
        forall|refs: &[ObjectRef], r: SuiResult<()>| #[trigger]
            call_ensures(
                <OverrideCache<R, H> as ObjectCacheRead>::check_owned_objects_are_live,
                (&cache, refs),
                r,
            ) ==> cache.check_owned_objects_are_live_post(refs@, r),
        forall|ids: &[ObjectID]| #[trigger]
            call_ensures(
                <OverrideCache<R, H> as ObjectCacheRead>::force_reload_system_packages,
                (&cache, ids),
                (),
            ) ==> cache.force_reload_system_packages_post(ids@),
        forall|keys: &[InputKey], r: Vec<bool>| #[trigger]
            call_ensures(
                <OverrideCache<R, H> as ObjectCacheRead>::multi_input_objects_available_cache_only,
                (&cache, keys),
                r,
            ) ==> cache.multi_input_objects_available_cache_only_post(keys@, r@),
        forall|r: SuiResult<R::SystemState>| #[trigger]
            call_ensures(
                <OverrideCache<R, H> as ObjectCacheRead>::get_sui_system_state_object_unsafe,
                (&cache,),
                r,
            ) ==> cache.get_sui_system_state_object_unsafe_post(r),
        forall|r: SuiResult<R::Bridge>| #[trigger]
            call_ensures(
                <OverrideCache<R, H> as ObjectCacheRead>::get_bridge_object_unsafe,
                (&cache,),
                r,
            ) ==> cache.get_bridge_object_unsafe_post(r),
        forall|key: FullObjectKey, epoch_id: EpochId, r: Option<MarkerValue>| #[trigger]
            call_ensures(
                <OverrideCache<R, H> as ObjectCacheRead>::get_marker_value,
                (&cache, key, epoch_id),
                r,
            ) ==> cache.get_marker_value_post(key, epoch_id, r),
        forall|
            id: FullObjectID,
            epoch_id: EpochId,
            r: Option<(SequenceNumber, MarkerValue)>,
        | #[trigger]
            call_ensures(
                <OverrideCache<R, H> as ObjectCacheRead>::get_latest_marker,
                (&cache, id, epoch_id),
                r,
            ) ==> cache.get_latest_marker_post(id, epoch_id, r),
        forall|r: Option<CheckpointSequenceNumber>| #[trigger]
            call_ensures(
                <OverrideCache<R, H> as ObjectCacheRead>::get_highest_pruned_checkpoint,
                (&cache,),
                r,
            ) ==> cache.get_highest_pruned_checkpoint_post(r),
        forall|id: ObjectID, r: SuiResult<Option<PackageObject>>| #[trigger]
            call_ensures(
                <OverrideCache<R, H> as BackingPackageStore>::get_package_object,
                (&cache, &id),
                r,
            ) ==> cache.package_post(id, r),
        forall|id: ObjectID, r: Option<Object>| #[trigger]
            call_ensures(<OverrideCache<R, H> as ObjectStore>::get_object, (&cache, &id), r)
                ==> cache.object_post(id, r),
        forall|id: ObjectID, version: SequenceNumber, r: Option<Object>| #[trigger]
            call_ensures(
                <OverrideCache<R, H> as ObjectStore>::get_object_by_key,
                (&cache, &id, version),
                r,
            ) ==> cache.object_by_key_post(id, version, r),
        forall|
            parent: ObjectID,
            child: ObjectID,
            bound: SequenceNumber,
            r: SuiResult<Option<Object>>,
        | #[trigger]
            call_ensures(
                <OverrideCache<R, H> as ChildObjectResolver>::read_child_object,
                (&cache, &parent, &child, bound),
                r,
            ) ==> cache.child_post(parent, child, bound, r),
        forall|
            owner: ObjectID,
            id: ObjectID,
            version: SequenceNumber,
            epoch_id: EpochId,
            r: SuiResult<Option<Object>>,
        | #[trigger]
            call_ensures(
                <OverrideCache<R, H> as ChildObjectResolver>::get_object_received_at_version,
                (&cache, &owner, &id, version, epoch_id),
                r,
            ) ==> cache.receive_post(owner, id, version, epoch_id, r),
{
}

/// A read may be called on the arguments that are stated for it.
pub proof fn law_reads_may_be_called_as_stated<R: ObjectCacheRead, H: Fn(&Object) -> ObjectDigest>(
    cache: OverrideCache<R, H>,
)
    ensures
        forall|id: ObjectID|
            cache.get_package_object_pre(id) ==> #[trigger]
            call_requires(
                <OverrideCache<R, H> as ObjectCacheRead>::get_package_object,
                (&cache, &id),
            ),
        forall|id: ObjectID|
            cache.get_object_pre(id) ==> #[trigger]
            call_requires(<OverrideCache<R, H> as ObjectCacheRead>::get_object, (&cache, &id)),
        forall|id: ObjectID|
            cache.get_latest_object_ref_or_tombstone_pre(id) ==> #[trigger]
            call_requires(
                <OverrideCache<R, H> as ObjectCacheRead>::get_latest_object_ref_or_tombstone,
                (&cache, id),
            ),
        forall|id: ObjectID|
            cache.get_latest_object_or_tombstone_pre(id) ==> #[trigger]
            call_requires(
                <OverrideCache<R, H> as ObjectCacheRead>::get_latest_object_or_tombstone,
                (&cache, id),
            ),
        forall|id: ObjectID, version: SequenceNumber|
            cache.get_object_by_key_pre(id, version) ==> #[trigger]
            call_requires(
                <OverrideCache<R, H> as ObjectCacheRead>::get_object_by_key,
                (&cache, &id, version),
            ),
        forall|id: ObjectID, version: SequenceNumber|
            cache.object_exists_by_key_pre(id, version) ==> #[trigger]
            call_requires(
                <OverrideCache<R, H> as ObjectCacheRead>::object_exists_by_key,
                (&cache, &id, version),
            ),
        forall|id: ObjectID, version: SequenceNumber|
            cache.find_object_lt_or_eq_version_pre(id, version) ==> #[trigger]
            call_requires(
                <OverrideCache<R, H> as ObjectCacheRead>::find_object_lt_or_eq_version,
                (&cache, id, version),
            ),
        forall|id: ObjectID|
            cache.get_live_objref_pre(id) ==> #[trigger]
            call_requires(
                <OverrideCache<R, H> as ObjectCacheRead>::_get_live_objref,
                (&cache, id),
            ),
        forall|keys: &[ObjectKey]|
            cache.multi_get_objects_by_key_pre(keys@) ==> #[trigger]
            call_requires(
                <OverrideCache<R, H> as ObjectCacheRead>::multi_get_objects_by_key,
                (&cache, keys),
            ),
        forall|keys: &[ObjectKey]|
            cache.multi_object_exists_by_key_pre(keys@) ==> #[trigger]
            call_requires(
                <OverrideCache<R, H> as ObjectCacheRead>::multi_object_exists_by_key,
                (&cache, keys),
            ),
        forall|refs: &[ObjectRef]|
            cache.check_owned_objects_are_live_pre(refs@) ==> #[trigger]
            call_requires(
                <OverrideCache<R, H> as ObjectCacheRead>::check_owned_objects_are_live,
                (&cache, refs),
            ),
        forall|id: ObjectID|
            cache.package_pre(id) ==> #[trigger]
            call_requires(
                <OverrideCache<R, H> as BackingPackageStore>::get_package_object,
                (&cache, &id),
            ),
        forall|id: ObjectID|
            cache.object_pre(id) ==> #[trigger]
            call_requires(<OverrideCache<R, H> as ObjectStore>::get_object, (&cache, &id)),
        forall|id: ObjectID, version: SequenceNumber|
            cache.object_by_key_pre(id, version) ==> #[trigger]
            call_requires(
                <OverrideCache<R, H> as ObjectStore>::get_object_by_key,
                (&cache, &id, version),
            ),
        forall|parent: ObjectID, child: ObjectID, bound: SequenceNumber|
            cache.child_pre(parent, child, bound) ==> #[trigger]
            call_requires(
                <OverrideCache<R, H> as ChildObjectResolver>::read_child_object,
                (&cache, &parent, &child, bound),
            ),
        forall|
            owner: ObjectID,
            id: ObjectID,
            version: SequenceNumber,
            epoch_id: EpochId,
        |
            cache.receive_pre(owner, id, version, epoch_id) ==> #[trigger]
            call_requires(
                <OverrideCache<R, H> as ChildObjectResolver>::get_object_received_at_version,
                (&cache, &owner, &id, version, epoch_id),
            ),
{
}

/// An object that an override gives can be read whatever the fallback may be asked,
/// its references if it can be hashed.
pub proof fn law_overridden_object_can_always_be_read<
    R: ObjectCacheRead,
    H: Fn(&Object) -> ObjectDigest,
>(
    cache: OverrideCache<R, H>,
    id: ObjectID,
    object: Object,
)
    requires
        !id.is_clock(),
        cache.overrides@.contains_key(id),
        cache.overrides@[id].object == ObjectReadResultKind::Object(object),
    ensures
        cache.get_object_pre(id),
        cache.get_latest_object_or_tombstone_pre(id),
        cache.get_object_by_key_pre(id, object.version()),
        cache.object_exists_by_key_pre(id, object.version()),
        forall|bound: SequenceNumber|
            object.version().value <= bound.value ==> #[trigger]
            cache.find_object_lt_or_eq_version_pre(id, bound),
        cache.get_package_object_pre(id) <==> object.inner.data is Package,
        cache.get_latest_object_ref_or_tombstone_pre(id) <==> call_requires(
            cache.fallback.object_hash,
            (&object,),
        ),
        cache.get_live_objref_pre(id) <==> call_requires(cache.fallback.object_hash, (&object,)),
{
    law_override_object_wins(cache, id, object);
}

/// An object that is not overridden can be read where the fallback can be asked.
pub proof fn law_unlisted_object_can_be_read_like_the_fallback<
    R: ObjectCacheRead,
    H: Fn(&Object) -> ObjectDigest,
>(
    cache: OverrideCache<R, H>,
    id: ObjectID,
    version: SequenceNumber,
)
    requires
        !id.is_clock(),
        !cache.overrides@.contains_key(id),
    ensures
        ({
            let reader = cache.fallback.object_cache_reader;
            &&& cache.get_object_pre(id) <==> reader.get_object_pre(id)
            &&& cache.get_package_object_pre(id) <==> reader.get_package_object_pre(id)
            &&& cache.get_latest_object_ref_or_tombstone_pre(id)
                <==> reader.get_latest_object_ref_or_tombstone_pre(id)
            &&& cache.get_latest_object_or_tombstone_pre(id)
                <==> reader.get_latest_object_or_tombstone_pre(id)
            &&& cache.get_live_objref_pre(id) <==> reader.get_live_objref_pre(id)
            &&& cache.get_object_by_key_pre(id, version) <==> reader.get_object_by_key_pre(
                id,
                version,
            )
            &&& reader.get_object_pre(id) && reader.find_object_lt_or_eq_version_pre(id, version)
                ==> cache.find_object_lt_or_eq_version_pre(id, version)
        }),
{
}

/// Lists of versions can be read where each version can, a child where a search for
/// it can be made, and an object can be received where its version can be read. The
/// override of a cancelled transaction cannot be read.
pub proof fn law_lists_can_be_read_where_their_parts_can<
    R: ObjectCacheRead,
    H: Fn(&Object) -> ObjectDigest,
>(
    cache: OverrideCache<R, H>,
    keys: Seq<ObjectKey>,
    refs: Seq<ObjectRef>,
    id: ObjectID,
    other: ObjectID,
    version: SequenceNumber,
    epoch_id: EpochId,
)
    ensures
        (forall|i: int|
            0 <= i < keys.len() ==> cache.get_object_by_key_pre((#[trigger] keys[i]).0, keys[i].1))
            ==> cache.multi_get_objects_by_key_pre(keys)
            && cache.multi_object_exists_by_key_pre(keys),
        (forall|i: int|
            0 <= i < refs.len() ==> cache.get_object_by_key_pre((#[trigger] refs[i]).0, refs[i].1))
            ==> cache.check_owned_objects_are_live_pre(refs),
        cache.object_exists_by_key_pre(id, version) <==> cache.get_object_by_key_pre(id, version),
        cache.find_object_lt_or_eq_version_pre(id, version) ==> cache.child_pre(other, id, version),
        cache.get_object_by_key_pre(id, version) ==> cache.receive_pre(
            other,
            id,
            version,
            epoch_id,
        ),
        !id.is_clock() && cache.overrides@.contains_key(id)
            && cache.overrides@[id].object is CancelledTransactionSharedObject ==> {
            &&& !cache.get_object_pre(id)
            &&& !cache.get_package_object_pre(id)
            &&& !cache.get_latest_object_ref_or_tombstone_pre(id)
            &&& !cache.get_latest_object_or_tombstone_pre(id)
            &&& !cache.get_object_by_key_pre(id, version)
            &&& !cache.get_live_objref_pre(id)
        },
{
}

} // verus!
