//! What requests are answered, for a given override.
use crate::base_types::{ObjectID, SequenceNumber};
use crate::error::{SuiError, SuiResult, UserInputError};
use crate::object::{
    Object, ObjectDigest, ObjectKey, ObjectOrTombstone, ObjectRef, PackageObject,
};
use crate::override_cache::OverrideCache;
use crate::storage::ObjectCacheRead;
use crate::transaction::{ObjectReadResult, ObjectReadResultKind};
use vstd::prelude::*;

verus! {

/// Under an override that gives an object, every request for the latest is
/// answered with it, and so is one for its version; any other version, and a
/// search below its version, is answered by the fallback.
pub proof fn law_answers_under_an_object<R: ObjectCacheRead, H: Fn(&Object) -> ObjectDigest>(
    cache: OverrideCache<R, H>,
    read: ObjectReadResult,
    object: Object,
    id: ObjectID,
)
    requires
        read.object == ObjectReadResultKind::Object(object),
    ensures
        ({
            let reader = cache.fallback.object_cache_reader;
            let result = Some(read);
            &&& forall|r: Option<Object>| #[trigger]
                cache.object_answer(result, id, r) <==> r == Some(object)
            &&& forall|r: SuiResult<Option<PackageObject>>| #[trigger]
                cache.package_answer(result, id, r) <==> r == Ok::<_, SuiError>(
                    Some(PackageObject { package_object: object }),
                )
            &&& forall|r: Option<ObjectRef>| #[trigger]
                cache.latest_ref_answer(result, id, r) <==> (r matches Some(object_ref) && {
                    &&& object_ref.0 == object.id()
                    &&& object_ref.1 == object.version()
                    &&& call_ensures(cache.fallback.object_hash, (&object,), object_ref.2)
                })
            &&& forall|r: SuiResult<ObjectRef>| #[trigger]
                cache.live_ref_answer(result, id, r) <==> (r matches Ok(object_ref) && {
                    &&& object_ref.0 == object.id()
                    &&& object_ref.1 == object.version()
                    &&& call_ensures(cache.fallback.object_hash, (&object,), object_ref.2)
                })
            &&& forall|r: Option<(ObjectKey, ObjectOrTombstone)>| #[trigger]
                cache.latest_answer(result, id, r) <==> r == Some(
                    (ObjectKey(object.id(), object.version()), ObjectOrTombstone::Object(object)),
                )
            &&& forall|version: SequenceNumber, r: Option<Object>| #[trigger]
                cache.version_answer(result, id, version, r) <==> if version.value
                    == object.version().value {
                    r == Some(object)
                } else {
                    reader.get_object_by_key_post(id, version, r)
                }
        }),
{
}

/// Under an override that says that the object left consensus, no version is found
/// and none is live; the latest state is the tombstone of what the fallback has,
/// and any other request is answered by the fallback.
pub proof fn law_answers_under_an_end<R: ObjectCacheRead, H: Fn(&Object) -> ObjectDigest>(
    cache: OverrideCache<R, H>,
    read: ObjectReadResult,
    id: ObjectID,
)
    requires
        read.object is ObjectConsensusStreamEnded,
    ensures
        ({
            let reader = cache.fallback.object_cache_reader;
            let result = Some(read);
            &&& forall|r: Option<Object>| #[trigger]
                cache.object_answer(result, id, r) <==> reader.get_object_post(id, r)
            &&& forall|r: SuiResult<Option<PackageObject>>| #[trigger]
                cache.package_answer(result, id, r) <==> reader.get_package_object_post(id, r)
            &&& forall|r: Option<ObjectRef>| #[trigger]
                cache.latest_ref_answer(result, id, r)
                    <==> reader.get_latest_object_ref_or_tombstone_post(id, r)
            &&& forall|r: SuiResult<ObjectRef>| #[trigger]
                cache.live_ref_answer(result, id, r) <==> r == Err::<ObjectRef, _>(
                    SuiError::UserInputError {
                        error: UserInputError::ObjectNotFound { object_id: id, version: None },
                    },
                )
            &&& forall|r: Option<(ObjectKey, ObjectOrTombstone)>| #[trigger]
                cache.latest_answer(result, id, r) <==> exists|undeleted: Option<Object>|
                    #[trigger] reader.get_object_post(id, undeleted) && match undeleted {
                        Some(object) => {
                            &&& r matches Some(state)
                            &&& state.0 == ObjectKey(object.id(), object.version())
                            &&& state.1 matches ObjectOrTombstone::Tombstone(object_ref)
                            &&& object_ref.0 == object.id()
                            &&& object_ref.1 == object.version()
                            &&& call_ensures(cache.fallback.object_hash, (&object,), object_ref.2)
                        },
                        None => r is None,
                    }
            &&& forall|version: SequenceNumber, r: Option<Object>| #[trigger]
                cache.version_answer(result, id, version, r) <==> r is None
        }),
{
}

/// Without an override the fallback answers every request.
pub proof fn law_answers_without_an_override<R: ObjectCacheRead, H: Fn(&Object) -> ObjectDigest>(
    cache: OverrideCache<R, H>,
    id: ObjectID,
)
    ensures
        ({
            let reader = cache.fallback.object_cache_reader;
            &&& forall|r: Option<Object>| #[trigger]
                cache.object_answer(None, id, r) <==> reader.get_object_post(id, r)
            &&& forall|r: SuiResult<Option<PackageObject>>| #[trigger]
                cache.package_answer(None, id, r) <==> reader.get_package_object_post(id, r)
            &&& forall|r: Option<ObjectRef>| #[trigger]
                cache.latest_ref_answer(None, id, r)
                    <==> reader.get_latest_object_ref_or_tombstone_post(id, r)
            &&& forall|r: SuiResult<ObjectRef>| #[trigger]
                cache.live_ref_answer(None, id, r) <==> reader.get_live_objref_post(id, r)
            &&& forall|r: Option<(ObjectKey, ObjectOrTombstone)>| #[trigger]
                cache.latest_answer(None, id, r) <==> reader.get_latest_object_or_tombstone_post(
                    id,
                    r,
                )
            &&& forall|version: SequenceNumber, r: Option<Object>| #[trigger]
                cache.version_answer(None, id, version, r) <==> reader.get_object_by_key_post(
                    id,
                    version,
                    r,
                )
        }),
{
}

/// A search up to a bound gives the latest object if that is within the bound, and
/// else what the fallback finds; where there is no latest object it gives none.
pub proof fn law_bounded_answers<R: ObjectCacheRead, H: Fn(&Object) -> ObjectDigest>(
    cache: OverrideCache<R, H>,
    latest: Object,
    id: ObjectID,
    bound: SequenceNumber,
    r: Option<Object>,
)
    ensures
        latest.version().value <= bound.value ==> (cache.bounded_answer(Some(latest), id, bound, r)
            <==> r == Some(latest)),
        bound.value < latest.version().value ==> (cache.bounded_answer(Some(latest), id, bound, r)
            <==> cache.fallback.object_cache_reader.find_object_lt_or_eq_version_post(
            id,
            bound,
            r,
        )),
        cache.bounded_answer(None, id, bound, r) <==> r is None,
{
}

/// A version exists under an override exactly where a request for it may be
/// answered with an object, and is absent where it may be answered with none.
pub proof fn law_existence_answers<R: ObjectCacheRead, H: Fn(&Object) -> ObjectDigest>(
    cache: OverrideCache<R, H>,
    result: Option<ObjectReadResult>,
    id: ObjectID,
    version: SequenceNumber,
)
    ensures
        cache.existence_answer(result, id, version, true) <==> exists|object: Object| #[trigger]
            cache.version_answer(result, id, version, Some(object)),
        cache.existence_answer(result, id, version, false) <==> cache.version_answer(
            result,
            id,
            version,
            None,
        ),
{
    if cache.existence_answer(result, id, version, true) {
        let found = choose|found: Option<Object>| #[trigger]
            cache.version_answer(result, id, version, found) && found is Some;
        assert(cache.version_answer(result, id, version, Some(found->0)));
    }
}

/// Requests for several versions are answered one by one, in their order.
pub proof fn law_list_answers<R: ObjectCacheRead, H: Fn(&Object) -> ObjectDigest>(
    cache: OverrideCache<R, H>,
    results: Seq<Option<ObjectReadResult>>,
    keys: Seq<ObjectKey>,
    found: Seq<Option<Object>>,
    exist: Seq<bool>,
)
    ensures
        cache.versions_answer(results, keys, found) ==> found.len() == keys.len() && forall|i: int|
            0 <= i < keys.len() ==> cache.version_answer(
                results[i],
                keys[i].0,
                keys[i].1,
                #[trigger] found[i],
            ),
        cache.existences_answer(results, keys, exist) ==> exist.len() == keys.len() && forall|
            i: int,
        |
            0 <= i < keys.len() ==> cache.existence_answer(
                results[i],
                keys[i].0,
                keys[i].1,
                #[trigger] exist[i],
            ),
{
}

/// References are refused where a request for one of their versions is never
/// answered with an object, and accepted where each always is; the error is that
/// of the first which is not.
pub proof fn law_liveness_answers<R: ObjectCacheRead, H: Fn(&Object) -> ObjectDigest>(
    cache: OverrideCache<R, H>,
    results: Seq<Option<ObjectReadResult>>,
    refs: Seq<ObjectRef>,
    i: int,
    r: SuiResult<()>,
)
    requires
        cache.liveness_answer(results, refs, r),
        0 <= i <= refs.len(),
        forall|j: int, found: Option<Object>|
            0 <= j < i && #[trigger] cache.version_answer(
                results[j],
                refs[j].0,
                refs[j].1,
                found,
            ) ==> found is Some,
        i < refs.len() ==> forall|found: Option<Object>| #[trigger]
            cache.version_answer(results[i], refs[i].0, refs[i].1, found) ==> found is None,
    ensures
        i == refs.len() ==> r is Ok,
        i < refs.len() ==> r == Err::<(), _>(
            SuiError::UserInputError {
                error: UserInputError::ObjectVersionUnavailableForConsumption {
                    provided_obj_ref: refs[i],
                    current_version: refs[i].1,
                },
            },
        ),
{
    if r is Ok {
        if i < refs.len() {
            assert(cache.existence_answer(results[i], refs[i].0, refs[i].1, true));
        }
    } else {
        let k = choose|k: int|
            {
                &&& 0 <= k < refs.len()
                &&& cache.existence_answer(
                    results[k],
                    (#[trigger] refs[k]).0,
                    refs[k].1,
                    false,
                )
                &&& r == Err::<(), _>(
                    SuiError::UserInputError {
                        error: UserInputError::ObjectVersionUnavailableForConsumption {
                            provided_obj_ref: refs[k],
                            current_version: refs[k].1,
                        },
                    },
                )
                &&& cache.are_live(results, refs, k)
            };
        if k < i {
            assert(cache.version_answer(results[k], refs[k].0, refs[k].1, None));
        } else if i < k {
            assert(cache.existence_answer(results[i], refs[i].0, refs[i].1, true));
        }
    }
}

/// A request for several versions, or for the liveness of references, rests on
/// the answers to the single ones: it is accepted only where each may be answered
/// with an object.
pub proof fn law_accepted_references_may_be_found<
    R: ObjectCacheRead,
    H: Fn(&Object) -> ObjectDigest,
>(
    cache: OverrideCache<R, H>,
    results: Seq<Option<ObjectReadResult>>,
    refs: Seq<ObjectRef>,
    i: int,
)
    requires
        cache.liveness_answer(results, refs, Ok(())),
        0 <= i < refs.len(),
    ensures
        exists|object: Object| #[trigger]
            cache.version_answer(results[i], refs[i].0, refs[i].1, Some(object)),
{
    assert(cache.existence_answer(results[i], refs[i].0, refs[i].1, true));
    law_existence_answers(cache, results[i], refs[i].0, refs[i].1);
}

/// Whatever a request under an override is answered is an answer that is stated
/// for it.
pub proof fn law_calls_return_stated_answers<R: ObjectCacheRead, H: Fn(&Object) -> ObjectDigest>(
    cache: OverrideCache<R, H>,
)
    ensures
        forall|
            result: Option<ObjectReadResult>,
            id: ObjectID,
            r: SuiResult<Option<PackageObject>>,
        | #[trigger]
            call_ensures(OverrideCache::<R, H>::package_under, (&cache, result, &id), r)
                ==> cache.package_answer(result, id, r),
        forall|
            result: Option<ObjectReadResult>,
            id: ObjectID,
            r: Option<Object>,
        | #[trigger]
            call_ensures(OverrideCache::<R, H>::object_under, (&cache, result, &id), r)
                ==> cache.object_answer(result, id, r),
        forall|
            result: Option<ObjectReadResult>,
            id: ObjectID,
            r: Option<ObjectRef>,
        | #[trigger]
            call_ensures(OverrideCache::<R, H>::latest_ref_under, (&cache, result, id), r)
                ==> cache.latest_ref_answer(result, id, r),
        forall|
            result: Option<ObjectReadResult>,
            id: ObjectID,
            r: Option<(ObjectKey, ObjectOrTombstone)>,
        | #[trigger]
            call_ensures(OverrideCache::<R, H>::latest_under, (&cache, result, id), r)
                ==> cache.latest_answer(result, id, r),
        forall|
            result: Option<ObjectReadResult>,
            id: ObjectID,
            version: SequenceNumber,
            r: Option<Object>,
        | #[trigger]
            call_ensures(OverrideCache::<R, H>::version_under, (&cache, result, &id, version), r)
                ==> cache.version_answer(result, id, version, r),
        forall|
            result: Option<ObjectReadResult>,
            id: ObjectID,
            r: SuiResult<ObjectRef>,
        | #[trigger]
            call_ensures(OverrideCache::<R, H>::live_ref_under, (&cache, result, id), r)
                ==> cache.live_ref_answer(result, id, r),
        forall|
            latest: Option<Object>,
            id: ObjectID,
            version: SequenceNumber,
            r: Option<Object>,
        | #[trigger]
            call_ensures(OverrideCache::<R, H>::bounded_under, (&cache, latest, id, version), r)
                ==> cache.bounded_answer(latest, id, version, r),
        forall|
            results: Vec<Option<ObjectReadResult>>,
            keys: &[ObjectKey],
            r: Vec<Option<Object>>,
        | #[trigger]
            call_ensures(OverrideCache::<R, H>::versions_under, (&cache, results, keys), r)
                ==> cache.versions_answer(results@, keys@, r@),
        forall|
            results: Vec<Option<ObjectReadResult>>,
            keys: &[ObjectKey],
            r: Vec<bool>,
        | #[trigger]
            call_ensures(OverrideCache::<R, H>::existences_under, (&cache, results, keys), r)
                ==> cache.existences_answer(results@, keys@, r@),
        forall|
            results: Vec<Option<ObjectReadResult>>,
            refs: &[ObjectRef],
            r: SuiResult<()>,
        | #[trigger]
            call_ensures(OverrideCache::<R, H>::liveness_under, (&cache, results, refs), r)
                ==> cache.liveness_answer(results@, refs@, r),
{
}

/// Under an override that gives an object, requests may be made whatever the
/// fallback may be asked; without an override where the fallback may be asked.
pub proof fn law_requests_that_may_be_made<R: ObjectCacheRead, H: Fn(&Object) -> ObjectDigest>(
    cache: OverrideCache<R, H>,
    read: ObjectReadResult,
    object: Object,
    id: ObjectID,
    version: SequenceNumber,
)
    requires
        read.object == ObjectReadResultKind::Object(object),
    ensures
        ({
            let reader = cache.fallback.object_cache_reader;
            &&& call_requires(OverrideCache::<R, H>::object_under, (&cache, Some(read), &id))
            &&& call_requires(OverrideCache::<R, H>::latest_under, (&cache, Some(read), id))
            &&& call_requires(
                OverrideCache::<R, H>::version_under,
                (&cache, Some(read), &id, object.version()),
            )
            &&& cache.may_ask_version(Some(read), id, version) <==> version != object.version()
                ==> reader.get_object_by_key_pre(id, version)
            &&& cache.may_ask_version(None, id, version) <==> reader.get_object_by_key_pre(
                id,
                version,
            )
            &&& object.version().value <= version.value ==> call_requires(
                OverrideCache::<R, H>::bounded_under,
                (&cache, Some(object), id, version),
            )
            &&& reader.get_object_pre(id) ==> call_requires(
                OverrideCache::<R, H>::object_under,
                (&cache, None, &id),
            )
            &&& reader.get_object_by_key_pre(id, version) ==> call_requires(
                OverrideCache::<R, H>::version_under,
                (&cache, None, &id, version),
            )
        }),
{
}

} // verus!
