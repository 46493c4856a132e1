//! What holds of the cache as a whole.
use crate::base_types::{
    small_number_bytes, EpochId, ObjectID, SequenceNumber, OBJECT_START_VERSION,
};
use crate::clock::{
    from_le_bytes, is_clock_for, is_clock_object, is_clock_override, is_clock_read, is_reading,
    le_bytes, lemma_le_bytes_read_back, shown_time, whole_millis,
};
use crate::error::{SuiError, SuiResult, UserInputError};
use crate::object::{
    hashes_every_object, is_digest, Data, Object, ObjectDigest, ObjectKey, ObjectOrTombstone,
    ObjectRef, Owner, PackageObject,
};
use crate::override_cache::{
    child_access, is_tombstone_for, object_in, overrides_of, OverrideCache,
};
use crate::storage::{
    is_received, BackingPackageStore, ChildObjectResolver, FullObjectKey, MarkerValue,
    ObjectCacheRead, ObjectStore,
};
use crate::transaction::{ObjectReadResult, ObjectReadResultKind};
use vstd::prelude::*;

pub mod answers;
pub mod reads;
pub mod values;

verus! {

broadcast use vstd::array::group_array_axioms;

/// An override that gives an object decides every read of that object alone:
/// the latest object and its references are those of the override, and so is
/// the version that the override has. Any other version, and the greatest version
/// below that of the override, is the fallback's to give.
pub proof fn law_override_object_wins<R: ObjectCacheRead, H: Fn(&Object) -> ObjectDigest>(
    cache: OverrideCache<R, H>,
    id: ObjectID,
    object: Object,
)
    requires
        !id.is_clock(),
        cache.overrides@.contains_key(id),
        cache.overrides@[id].object == ObjectReadResultKind::Object(object),
    ensures
        forall|r: Option<Object>| #[trigger]
            cache.get_object_post(id, r) <==> r == Some(object),
        forall|r: SuiResult<Option<PackageObject>>| #[trigger]
            cache.get_package_object_post(id, r) <==> r == Ok::<_, SuiError>(
                Some(PackageObject { package_object: object }),
            ),
        forall|r: Option<ObjectRef>| #[trigger]
            cache.get_latest_object_ref_or_tombstone_post(id, r) <==> (r matches Some(object_ref)
                && {
                &&& object_ref.0 == object.id()
                &&& object_ref.1 == object.version()
                &&& call_ensures(cache.fallback.object_hash, (&object,), object_ref.2)
            }),
        forall|r: Option<(ObjectKey, ObjectOrTombstone)>| #[trigger]
            cache.get_latest_object_or_tombstone_post(id, r) <==> r == Some(
                (ObjectKey(object.id(), object.version()), ObjectOrTombstone::Object(object)),
            ),
        forall|r: SuiResult<ObjectRef>| #[trigger]
            cache.get_live_objref_post(id, r) <==> (r matches Ok(object_ref) && {
                &&& object_ref.0 == object.id()
                &&& object_ref.1 == object.version()
                &&& call_ensures(cache.fallback.object_hash, (&object,), object_ref.2)
            }),
        forall|r: Option<Object>| #[trigger]
            cache.get_object_by_key_post(id, object.version(), r) <==> r == Some(object),
        forall|version: SequenceNumber, r: Option<Object>|
            version.value != object.version().value ==> (#[trigger]
            cache.get_object_by_key_post(id, version, r)
                <==> cache.fallback.object_cache_reader.get_object_by_key_post(id, version, r)),
        forall|r: bool| #[trigger]
            cache.object_exists_by_key_post(id, object.version(), r) <==> r,
        forall|bound: SequenceNumber, r: Option<Object>|
            object.version().value <= bound.value ==> (#[trigger]
            cache.find_object_lt_or_eq_version_post(id, bound, r) <==> r == Some(object)),
        forall|bound: SequenceNumber, r: Option<Object>|
            bound.value < object.version().value ==> (#[trigger]
            cache.find_object_lt_or_eq_version_post(id, bound, r)
                <==> cache.fallback.object_cache_reader.find_object_lt_or_eq_version_post(
                id,
                bound,
                r,
            )),
{
    let result = cache.listed(id);
    assert(cache.override_may_be(id, result));
    assert(cache.get_object_post(id, Some(object)));
    assert(cache.get_object_by_key_post(id, object.version(), Some(object)));
}

/// An object that is not overridden is read from the fallback.
pub proof fn law_unlisted_object_is_read_from_fallback<
    R: ObjectCacheRead,
    H: Fn(&Object) -> ObjectDigest,
>(
    cache: OverrideCache<R, H>,
    id: ObjectID,
)
    requires
        !id.is_clock(),
        !cache.overrides@.contains_key(id),
    ensures
        ({
            let reader = cache.fallback.object_cache_reader;
            &&& forall|r: Option<Object>| #[trigger]
                cache.get_object_post(id, r) <==> reader.get_object_post(id, r)
            &&& forall|r: SuiResult<Option<PackageObject>>| #[trigger]
                cache.get_package_object_post(id, r) <==> reader.get_package_object_post(id, r)
            &&& forall|r: Option<ObjectRef>| #[trigger]
                cache.get_latest_object_ref_or_tombstone_post(id, r)
                    <==> reader.get_latest_object_ref_or_tombstone_post(id, r)
            &&& forall|r: Option<(ObjectKey, ObjectOrTombstone)>| #[trigger]
                cache.get_latest_object_or_tombstone_post(id, r)
                    <==> reader.get_latest_object_or_tombstone_post(id, r)
            &&& forall|r: SuiResult<ObjectRef>| #[trigger]
                cache.get_live_objref_post(id, r) <==> reader.get_live_objref_post(id, r)
            &&& forall|version: SequenceNumber, r: Option<Object>| #[trigger]
                cache.get_object_by_key_post(id, version, r) <==> reader.get_object_by_key_post(
                    id,
                    version,
                    r,
                )
            &&& forall|version: SequenceNumber, r: bool| #[trigger]
                cache.object_exists_by_key_post(id, version, r) <==> exists|found: Option<Object>|
                    #[trigger] reader.get_object_by_key_post(id, version, found) && r
                        == found is Some
        }),
{
    assert(cache.override_may_be(id, None));
    let reader = cache.fallback.object_cache_reader;
    assert forall|version: SequenceNumber, r: bool|
        (exists|found: Option<Object>| #[trigger]
            reader.get_object_by_key_post(id, version, found) && r
                == found is Some) implies #[trigger] cache.object_exists_by_key_post(
        id,
        version,
        r,
    ) by {
        let found = choose|found: Option<Object>| #[trigger]
            reader.get_object_by_key_post(id, version, found) && r == found is Some;
        assert(cache.get_object_by_key_post(id, version, found));
    }
    assert forall|version: SequenceNumber, r: bool| #[trigger]
        cache.object_exists_by_key_post(id, version, r) implies exists|found: Option<Object>|
        #[trigger] reader.get_object_by_key_post(id, version, found) && r == found is Some by {
        let found = choose|found: Option<Object>| #[trigger]
            cache.get_object_by_key_post(id, version, found) && r == found is Some;
        assert(reader.get_object_by_key_post(id, version, found));
    }
}

/// An object whose override says that it left consensus has no version and no
/// live reference, and its latest state is never an object but the tombstone of
/// what the fallback has; that is still found as the latest object.
pub proof fn law_ended_object_has_no_version<R: ObjectCacheRead, H: Fn(&Object) -> ObjectDigest>(
    cache: OverrideCache<R, H>,
    id: ObjectID,
)
    requires
        !id.is_clock(),
        cache.overrides@.contains_key(id),
        cache.overrides@[id].object is ObjectConsensusStreamEnded,
    ensures
        ({
            let reader = cache.fallback.object_cache_reader;
            &&& forall|version: SequenceNumber, r: Option<Object>| #[trigger]
                cache.get_object_by_key_post(id, version, r) <==> r is None
            &&& forall|version: SequenceNumber, r: bool| #[trigger]
                cache.object_exists_by_key_post(id, version, r) <==> !r
            &&& forall|r: SuiResult<ObjectRef>| #[trigger]
                cache.get_live_objref_post(id, r) <==> r == Err::<ObjectRef, _>(
                    SuiError::UserInputError {
                        error: UserInputError::ObjectNotFound { object_id: id, version: None },
                    },
                )
            &&& forall|r: Option<(ObjectKey, ObjectOrTombstone)>| #[trigger]
                cache.get_latest_object_or_tombstone_post(id, r) <==> exists|
                    undeleted: Option<Object>,
                | #[trigger]
                    reader.get_object_post(id, undeleted) && match undeleted {
                        Some(object) => {
                            &&& r matches Some(state)
                            &&& state.0 == ObjectKey(object.id(), object.version())
                            &&& state.1 matches ObjectOrTombstone::Tombstone(object_ref)
                            &&& object_ref.0 == object.id()
                            &&& object_ref.1 == object.version()
                            &&& call_ensures(cache.fallback.object_hash, (&object,), object_ref.2)
                        },
                        None => r is None,
                    }
            &&& forall|r: Option<(ObjectKey, ObjectOrTombstone)>| #[trigger]
                cache.get_latest_object_or_tombstone_post(id, r) ==> (r matches Some(state)
                    ==> state.1 is Tombstone)
            &&& forall|r: Option<Object>| #[trigger]
                cache.get_object_post(id, r) <==> reader.get_object_post(id, r)
            &&& forall|r: SuiResult<Option<PackageObject>>| #[trigger]
                cache.get_package_object_post(id, r) <==> reader.get_package_object_post(id, r)
            &&& forall|r: Option<ObjectRef>| #[trigger]
                cache.get_latest_object_ref_or_tombstone_post(id, r)
                    <==> reader.get_latest_object_ref_or_tombstone_post(id, r)
        }),
{
    let result = cache.listed(id);
    assert(cache.override_may_be(id, result));
    assert forall|version: SequenceNumber, r: bool| !r implies #[trigger]
        cache.object_exists_by_key_post(id, version, r) by {
        assert(cache.get_object_by_key_post(id, version, None));
    }
}

/// The last entry of a list that names an id is its override.
pub proof fn law_last_listed_wins(list: Seq<ObjectReadResult>, i: int)
    requires
        0 <= i < list.len(),
        forall|j: int| i < j < list.len() ==> (#[trigger] list[j]).id() != list[i].id(),
    ensures
        overrides_of(list).contains_key(list[i].id()),
        overrides_of(list)[list[i].id()] == list[i],
    decreases list.len(),
{
    if i < list.len() - 1 {
        let rest = list.drop_last();
        assert(list[list.len() - 1].id() != list[i].id());
        assert forall|j: int| i < j < rest.len() implies (#[trigger] rest[j]).id() != rest[i].id() by {
            assert(list[j].id() != list[i].id());
        }
        law_last_listed_wins(rest, i);
    }
}

/// A cache that was made from a list finds, under the id of an entry, the last
/// entry with that id, unless it is the id of the clock.
pub proof fn law_listed_override_is_found<R: ObjectCacheRead, H: Fn(&Object) -> ObjectDigest>(
    cache: OverrideCache<R, H>,
    list: Seq<ObjectReadResult>,
    i: int,
)
    requires
        cache.overrides@ == overrides_of(list),
        0 <= i < list.len(),
        !list[i].id().is_clock(),
        forall|j: int| i < j < list.len() ==> (#[trigger] list[j]).id() != list[i].id(),
    ensures
        forall|result: Option<ObjectReadResult>| #[trigger]
            cache.override_may_be(list[i].id(), result) <==> result == Some(list[i]),
{
    law_last_listed_wins(list, i);
}

/// An id that no entry of a list names has no override.
pub proof fn law_unnamed_id_has_no_override(list: Seq<ObjectReadResult>, id: ObjectID)
    requires
        forall|i: int| 0 <= i < list.len() ==> (#[trigger] list[i]).id() != id,
    ensures
        !overrides_of(list).contains_key(id),
    decreases list.len(),
{
    if list.len() > 0 {
        let rest = list.drop_last();
        assert(list[list.len() - 1].id() != id);
        assert forall|i: int| 0 <= i < rest.len() implies (#[trigger] rest[i]).id() != id by {
            assert(list[i].id() != id);
        }
        law_unnamed_id_has_no_override(rest, id);
    }
}

/// The list has no say in the override of the clock, which is a clock object
/// whenever there is one.
pub proof fn law_clock_ignores_list<R: ObjectCacheRead, H: Fn(&Object) -> ObjectDigest>(
    first: OverrideCache<R, H>,
    second: OverrideCache<R, H>,
    id: ObjectID,
    result: Option<ObjectReadResult>,
)
    requires
        id.is_clock(),
    ensures
        forall|nanos: Option<u128>|
            first.override_at(id, nanos, result) == second.override_at(id, nanos, result),
        first.override_may_be(id, result) <==> second.override_may_be(id, result),
        first.override_may_be(id, result) ==> (result matches Some(read) ==> read.id() == id && (
        object_in(result) matches Some(object) && object.key() == ObjectKey(
            id,
            SequenceNumber { value: OBJECT_START_VERSION },
        ))),
{
    if first.override_may_be(id, result) && result is Some {
        let read = result->0;
        let nanos = choose|nanos: Option<u128>| #[trigger]
            is_reading(nanos) && is_clock_override(nanos, result);
        assert(is_clock_read(read, shown_time(nanos->0)));
        assert(read.id().bytes =~= id.bytes);
        let object = object_in(result)->0;
        assert(object.id().bytes =~= id.bytes);
    }
}

/// An override that gives an object decides the answer to every request, whatever
/// the fallback has: the object is the latest one, it is found again under its own
/// version, and the latest reference is its own and names the latest key.
pub proof fn law_override_decides_answers<R: ObjectCacheRead, H: Fn(&Object) -> ObjectDigest>(
    cache: OverrideCache<R, H>,
    id: ObjectID,
    result: Option<ObjectReadResult>,
    object: Object,
)
    requires
        object_in(result) == Some(object),
    ensures
        forall|r: Option<Object>| #[trigger]
            cache.object_answer(result, id, r) <==> r == Some(object),
        forall|r: Option<Object>| #[trigger]
            cache.version_answer(result, id, object.version(), r) <==> r == Some(object),
        forall|r: Option<ObjectRef>| #[trigger]
            cache.latest_ref_answer(result, id, r) <==> (r matches Some(object_ref)
                && object.is_referred_by(cache.fallback.object_hash, object_ref)),
        forall|r: Option<(ObjectKey, ObjectOrTombstone)>| #[trigger]
            cache.latest_answer(result, id, r) <==> r == Some(
                (object.key(), ObjectOrTombstone::Object(object)),
            ),
        forall|r: SuiResult<ObjectRef>| #[trigger]
            cache.live_ref_answer(result, id, r) <==> (r matches Ok(object_ref)
                && object.is_referred_by(cache.fallback.object_hash, object_ref)),
        forall|bound: SequenceNumber, r: Option<Object>|
            object.version().value <= bound.value ==> (#[trigger]
            cache.bounded_answer(Some(object), id, bound, r) <==> r == Some(object)),
        forall|object_ref: ObjectRef| #[trigger]
            cache.latest_ref_answer(result, id, Some(object_ref)) ==> ObjectKey::of_ref(object_ref)
                == object.key(),
{
}

/// Where an object can have one digest only, there is one reference to it: a
/// reference that was kept with that digest is the latest and the live one under
/// the override, and the one in a tombstone.
pub proof fn law_references_to_one_object_are_equal<
    R: ObjectCacheRead,
    H: Fn(&Object) -> ObjectDigest,
>(
    cache: OverrideCache<R, H>,
    id: ObjectID,
    result: Option<ObjectReadResult>,
    object: Object,
    kept: ObjectRef,
)
    requires
        object_in(result) == Some(object),
        kept.0 == object.id(),
        kept.1 == object.version(),
        forall|digest: ObjectDigest| #[trigger]
            is_digest(cache.fallback.object_hash, object, digest) ==> digest == kept.2,
    ensures
        forall|r: Option<ObjectRef>| #[trigger]
            cache.latest_ref_answer(result, id, r) ==> r == Some(kept),
        forall|r: SuiResult<ObjectRef>| #[trigger]
            cache.live_ref_answer(result, id, r) ==> r == Ok::<_, SuiError>(kept),
        forall|r: Option<(ObjectKey, ObjectOrTombstone)>| #[trigger]
            is_tombstone_for(cache.fallback.object_hash, Some(object), r) ==> r == Some(
                (ObjectKey::of_ref(kept), ObjectOrTombstone::Tombstone(kept)),
            ),
{
}

/// Overrides that give each the version that its key names decide the answers to
/// requests for several keys, whatever the fallback has: the objects are found,
/// and they exist.
pub proof fn law_overrides_decide_lists<R: ObjectCacheRead, H: Fn(&Object) -> ObjectDigest>(
    cache: OverrideCache<R, H>,
    results: Seq<Option<ObjectReadResult>>,
    keys: Seq<ObjectKey>,
)
    requires
        results.len() == keys.len(),
        forall|i: int|
            0 <= i < keys.len() ==> (object_in(results[i]) matches Some(object)
                && object.version() == (#[trigger] keys[i]).1),
    ensures
        forall|r: Seq<Option<Object>>| #[trigger]
            cache.versions_answer(results, keys, r) <==> r == results.map_values(
                |result: Option<ObjectReadResult>| object_in(result),
            ),
        forall|r: Seq<bool>| #[trigger]
            cache.existences_answer(results, keys, r) <==> r == results.map_values(
                |result: Option<ObjectReadResult>| true,
            ),
{
    let objects = results.map_values(|result: Option<ObjectReadResult>| object_in(result));
    let yes = results.map_values(|result: Option<ObjectReadResult>| true);
    assert forall|i: int, found: Option<Object>|
        0 <= i < keys.len() implies (#[trigger] cache.version_answer(
        results[i],
        keys[i].0,
        keys[i].1,
        found,
    ) <==> found == object_in(results[i])) by {
        law_override_decides_answers(cache, keys[i].0, results[i], object_in(results[i])->0);
    }
    assert forall|i: int, r: bool| 0 <= i < keys.len() implies (#[trigger] cache.existence_answer(
        results[i],
        keys[i].0,
        keys[i].1,
        r,
    ) <==> r) by {
        assert(object_in(results[i])->0.version() == keys[i].1);
        assert(cache.version_answer(results[i], keys[i].0, keys[i].1, object_in(results[i])));
    }
    assert forall|r: Seq<Option<Object>>| #[trigger]
        cache.versions_answer(results, keys, r) implies r == objects by {
        assert(r =~= objects);
    }
    assert forall|r: Seq<bool>| #[trigger] cache.existences_answer(results, keys, r) implies r
        == yes by {
        assert(r =~= yes);
    }
}

/// References to the versions that their overrides give are all live, whatever
/// the fallback has.
pub proof fn law_overrides_decide_liveness<R: ObjectCacheRead, H: Fn(&Object) -> ObjectDigest>(
    cache: OverrideCache<R, H>,
    results: Seq<Option<ObjectReadResult>>,
    refs: Seq<ObjectRef>,
)
    requires
        results.len() == refs.len(),
        forall|i: int|
            0 <= i < refs.len() ==> (object_in(results[i]) matches Some(object)
                && object.version() == (#[trigger] refs[i]).1),
    ensures
        forall|r: SuiResult<()>| #[trigger]
            cache.liveness_answer(results, refs, r) <==> r is Ok,
{
    assert forall|i: int, r: bool| 0 <= i < refs.len() implies (#[trigger] cache.existence_answer(
        results[i],
        refs[i].0,
        refs[i].1,
        r,
    ) <==> r) by {
        assert(object_in(results[i])->0.version() == refs[i].1);
        assert(cache.version_answer(results[i], refs[i].0, refs[i].1, object_in(results[i])));
    }
}

/// At a reading of the system clock since the epoch, the clock object for that
/// reading decides the answer to every request for the clock: it is the latest
/// object, its reference is the latest and the live one, its key is the latest
/// key, and it is found again at its version, the first. Neither the list nor
/// the fallback has a say.
pub proof fn law_clock_override_wins<R: ObjectCacheRead, H: Fn(&Object) -> ObjectDigest>(
    cache: OverrideCache<R, H>,
    id: ObjectID,
    nanos: u128,
    result: Option<ObjectReadResult>,
)
    requires
        id.is_clock(),
        cache.override_at(id, Some(nanos), result),
    ensures
        ({
            let start = SequenceNumber { value: OBJECT_START_VERSION };
            &&& object_in(result) matches Some(object)
            &&& is_clock_object(object, shown_time(nanos))
            &&& object.key() == ObjectKey(id, start)
            &&& forall|object_ref: ObjectRef| #[trigger]
                cache.latest_ref_answer(result, id, Some(object_ref)) ==> ObjectKey::of_ref(
                    object_ref,
                ) == object.key()
            &&& forall|r: Option<Object>| #[trigger]
                cache.object_answer(result, id, r) <==> r == Some(object)
            &&& forall|r: Option<Object>| #[trigger]
                cache.version_answer(result, id, start, r) <==> r == Some(object)
            &&& forall|r: Option<ObjectRef>| #[trigger]
                cache.latest_ref_answer(result, id, r) <==> (r matches Some(object_ref)
                    && object.is_referred_by(cache.fallback.object_hash, object_ref))
            &&& forall|r: Option<(ObjectKey, ObjectOrTombstone)>| #[trigger]
                cache.latest_answer(result, id, r) <==> r == Some(
                    (object.key(), ObjectOrTombstone::Object(object)),
                )
            &&& forall|r: SuiResult<ObjectRef>| #[trigger]
                cache.live_ref_answer(result, id, r) <==> (r matches Ok(object_ref)
                    && object.is_referred_by(cache.fallback.object_hash, object_ref))
            &&& forall|bound: SequenceNumber, r: Option<Object>|
                OBJECT_START_VERSION <= bound.value ==> (#[trigger]
                cache.bounded_answer(Some(object), id, bound, r) <==> r == Some(object))
        }),
{
    let object = object_in(result)->0;
    assert(object.id().bytes =~= id.bytes);
    law_override_decides_answers(cache, id, result, object);
}

/// A later reading of the system clock shows no earlier time, as long as its
/// milliseconds fit in 64 bits, and the clock objects differ in nothing but the
/// time. Two readings in one millisecond give the same clock object.
#[verifier::spinoff_prover]
pub proof fn law_later_reading_shows_no_earlier_time(
    a: u128,
    b: u128,
    first: Object,
    second: Object,
)
    requires
        a <= b,
        is_clock_for(Some(a), Ok(first)),
        is_clock_for(Some(b), Ok(second)),
    ensures
        first.same_but_for_contents(second),
        first.contents().take(32) == second.contents().take(32),
        whole_millis(b) <= u64::MAX ==> {
            &&& from_le_bytes(first.contents().skip(32)) == whole_millis(a)
            &&& from_le_bytes(second.contents().skip(32)) == whole_millis(b)
            &&& whole_millis(a) <= whole_millis(b)
        },
        whole_millis(a) == whole_millis(b) ==> first.same_value(second),
{
    assert(first.same_but_for_contents(second) && first.contents().take(32)
        == second.contents().take(32) && (shown_time(a) == shown_time(b) ==> first.contents()
        == second.contents())) by {
        lemma_clock_objects_differ_in_contents(first, shown_time(a), second, shown_time(b));
    }
    assert(from_le_bytes(first.contents().skip(32)) == shown_time(a)) by {
        law_clock_shows_its_time(first, shown_time(a));
    }
    assert(from_le_bytes(second.contents().skip(32)) == shown_time(b)) by {
        law_clock_shows_its_time(second, shown_time(b));
    }
    lemma_shown_times_are_ordered(a, b);
}

/// Milliseconds that fit in 64 bits are shown as they are.
proof fn lemma_shown_times_are_ordered(a: u128, b: u128)
    requires
        a <= b,
    ensures
        whole_millis(a) <= whole_millis(b),
        whole_millis(b) <= u64::MAX ==> shown_time(a) == whole_millis(a) && shown_time(b)
            == whole_millis(b),
        whole_millis(a) == whole_millis(b) ==> shown_time(a) == shown_time(b),
{
}

/// Clock objects for two times agree in all but the bytes that show the time.
proof fn lemma_clock_objects_differ_in_contents(
    first: Object,
    first_ms: u64,
    second: Object,
    second_ms: u64,
)
    requires
        is_clock_object(first, first_ms),
        is_clock_object(second, second_ms),
    ensures
        first.same_but_for_contents(second),
        first.contents().take(32) == second.contents().take(32),
        first_ms == second_ms ==> first.contents() == second.contents(),
{
    assert(first.contents().take(32) =~= small_number_bytes(6));
    assert(second.contents().take(32) =~= small_number_bytes(6));
    assert(first.id().bytes =~= second.id().bytes);
    assert(first.inner.previous_transaction.bytes =~= second.inner.previous_transaction.bytes);
    match (&first.inner.data, &second.inner.data) {
        (Data::Move(m), Data::Move(n)) => {
            assert(m.spec_type().address.bytes =~= n.spec_type().address.bytes);
            assert(m.spec_type().type_params@.map_values(|param: String| param@)
                =~= n.spec_type().type_params@.map_values(|param: String| param@));
        },
        _ => {},
    }
}

/// Where the fallback may be asked for an object, and every object can be hashed,
/// so may the cache, unless the override of the object stands for one of a
/// cancelled transaction, or a package is asked for and the override is none.
pub proof fn law_only_cancelled_objects_are_refused<
    R: ObjectCacheRead,
    H: Fn(&Object) -> ObjectDigest,
>(
    cache: OverrideCache<R, H>,
    id: ObjectID,
    version: SequenceNumber,
)
    requires
        ({
            let reader = cache.fallback.object_cache_reader;
            &&& reader.get_package_object_pre(id)
            &&& reader.get_object_pre(id)
            &&& reader.get_latest_object_ref_or_tombstone_pre(id)
            &&& reader.get_latest_object_or_tombstone_pre(id)
            &&& reader.get_object_by_key_pre(id, version)
            &&& reader.find_object_lt_or_eq_version_pre(id, version)
            &&& reader.get_live_objref_pre(id)
        }),
        hashes_every_object(cache.fallback.object_hash),
        !cache.cancelled(id),
    ensures
        cache.get_object_pre(id),
        cache.get_latest_object_ref_or_tombstone_pre(id),
        cache.get_latest_object_or_tombstone_pre(id),
        cache.get_object_by_key_pre(id, version),
        cache.object_exists_by_key_pre(id, version),
        cache.find_object_lt_or_eq_version_pre(id, version),
        cache.get_live_objref_pre(id),
        cache.get_package_object_pre(id) <==> !id.is_clock() && (object_in(
            cache.listed(id),
        ) matches Some(object) ==> object.is_package()),
{
}

/// A clock object shows one time, and it can be read from its contents.
pub proof fn law_clock_shows_its_time(object: Object, timestamp_ms: u64)
    requires
        is_clock_object(object, timestamp_ms),
    ensures
        object.contents().len() == 40,
        from_le_bytes(object.contents().skip(32)) == timestamp_ms,
        forall|other: u64| #[trigger] is_clock_object(object, other) ==> other == timestamp_ms,
{
    let contents = object.contents();
    lemma_le_bytes_read_back(timestamp_ms);
    assert(contents.skip(32) =~= le_bytes(timestamp_ms));
    assert forall|other: u64| #[trigger] is_clock_object(object, other) implies other
        == timestamp_ms by {
        lemma_le_bytes_read_back(other);
        assert(contents.skip(32) =~= le_bytes(other));
    }
}

/// A version that is read by its number has that number, if the fallback keeps
/// to this.
pub proof fn law_version_by_key<R: ObjectCacheRead, H: Fn(&Object) -> ObjectDigest>(
    cache: OverrideCache<R, H>,
    id: ObjectID,
    version: SequenceNumber,
    object: Object,
)
    requires
        forall|found: Object| #[trigger]
            cache.fallback.object_cache_reader.get_object_by_key_post(id, version, Some(found))
                ==> found.version() == version,
        cache.get_object_by_key_post(id, version, Some(object)),
    ensures
        object.version() == version,
{
}

/// A version that is searched up to a bound is within it, if the fallback keeps
/// to this.
pub proof fn law_version_within_bound<R: ObjectCacheRead, H: Fn(&Object) -> ObjectDigest>(
    cache: OverrideCache<R, H>,
    id: ObjectID,
    bound: SequenceNumber,
    object: Object,
)
    requires
        forall|found: Object| #[trigger]
            cache.fallback.object_cache_reader.find_object_lt_or_eq_version_post(
                id,
                bound,
                Some(found),
            ) ==> found.version().value <= bound.value,
        cache.find_object_lt_or_eq_version_post(id, bound, Some(object)),
    ensures
        object.version().value <= bound.value,
{
}

/// A version is said to exist exactly when a read may find it, and to be absent
/// exactly when a read may find nothing.
pub proof fn law_existence_agrees_with_read<R: ObjectCacheRead, H: Fn(&Object) -> ObjectDigest>(
    cache: OverrideCache<R, H>,
    id: ObjectID,
    version: SequenceNumber,
)
    ensures
        cache.object_exists_by_key_post(id, version, true) <==> exists|object: Object|
            cache.get_object_by_key_post(id, version, Some(object)),
        cache.object_exists_by_key_post(id, version, false) <==> cache.get_object_by_key_post(
            id,
            version,
            None,
        ),
{
    if cache.object_exists_by_key_post(id, version, true) {
        let found = choose|found: Option<Object>| #[trigger]
            cache.get_object_by_key_post(id, version, found) && found is Some;
        assert(cache.get_object_by_key_post(id, version, Some(found->0)));
    }
}

/// A child that is read belongs to the parent that was given; another owner is
/// an error, and an absent object is none.
pub proof fn law_child_belongs_to_parent<R: ObjectCacheRead, H: Fn(&Object) -> ObjectDigest>(
    cache: OverrideCache<R, H>,
    parent: ObjectID,
    child: ObjectID,
    bound: SequenceNumber,
    r: SuiResult<Option<Object>>,
)
    requires
        cache.child_post(parent, child, bound, r),
    ensures
        match r {
            Ok(Some(object)) => {
                &&& object.inner.owner == Owner::ObjectOwner(parent.address())
                &&& cache.find_object_lt_or_eq_version_post(child, bound, Some(object))
            },
            Ok(None) => cache.find_object_lt_or_eq_version_post(child, bound, None),
            Err(error) => exists|object: Object|
                #![trigger cache.find_object_lt_or_eq_version_post(child, bound, Some(object))]
                {
                    &&& cache.find_object_lt_or_eq_version_post(child, bound, Some(object))
                    &&& object.inner.owner != Owner::ObjectOwner(parent.address())
                    &&& error == SuiError::InvalidChildObjectAccess {
                        object: child,
                        given_parent: parent,
                        actual_owner: object.inner.owner,
                    }
                },
        },
{
    let found = choose|found: Option<Object>| #[trigger]
        cache.find_object_lt_or_eq_version_post(child, bound, found) && r == child_access(
            parent,
            child,
            found,
        );
    if found is Some {
        assert(cache.find_object_lt_or_eq_version_post(child, bound, Some(found->0)));
    }
}

/// To receive an object never fails: it gives an object of the receiver, or
/// none.
pub proof fn law_received_object_belongs_to_receiver<
    R: ObjectCacheRead,
    H: Fn(&Object) -> ObjectDigest,
>(
    cache: OverrideCache<R, H>,
    owner: ObjectID,
    id: ObjectID,
    version: SequenceNumber,
    epoch_id: EpochId,
    r: SuiResult<Option<Object>>,
)
    requires
        cache.receive_post(owner, id, version, epoch_id, r),
    ensures
        r is Ok,
        r->Ok_0 matches Some(object) ==> {
            &&& object.inner.owner == Owner::AddressOwner(owner.address())
            &&& cache.get_object_by_key_post(id, version, Some(object))
        },
{
}

/// An object of another owner, and one that was received already, cannot be
/// told from one that is not there.
pub proof fn law_refused_receipts_are_indistinguishable<
    R: ObjectCacheRead,
    H: Fn(&Object) -> ObjectDigest,
>(
    cache: OverrideCache<R, H>,
    owner: ObjectID,
    id: ObjectID,
    version: SequenceNumber,
    epoch_id: EpochId,
    r: SuiResult<Option<Object>>,
)
    requires
        ({
            let key = FullObjectKey::Fastpath(ObjectKey(id, version));
            ||| forall|object: Object| #[trigger]
                cache.get_object_by_key_post(id, version, Some(object)) ==> object.inner.owner
                    != Owner::AddressOwner(owner.address())
            ||| forall|marker: Option<MarkerValue>| #[trigger]
                cache.get_marker_value_post(key, epoch_id, marker) ==> is_received(marker)
            ||| forall|found: Option<Object>| #[trigger]
                cache.get_object_by_key_post(id, version, found) ==> found is None
        }),
        cache.receive_post(owner, id, version, epoch_id, r),
    ensures
        r == Ok::<Option<Object>, SuiError>(None),
{
}

/// References to the versions that overrides have are all live, whatever the
/// fallback has.
pub proof fn law_overridden_references_are_live<R: ObjectCacheRead, H: Fn(&Object) -> ObjectDigest>(
    cache: OverrideCache<R, H>,
    refs: Seq<ObjectRef>,
    r: SuiResult<()>,
)
    requires
        forall|i: int|
            0 <= i < refs.len() ==> !(#[trigger] refs[i]).0.is_clock()
                && cache.overrides@.contains_key(refs[i].0) && (
            cache.overrides@[refs[i].0].object matches ObjectReadResultKind::Object(object)
                && object.version() == refs[i].1),
        cache.check_owned_objects_are_live_post(refs, r),
    ensures
        r is Ok,
{
    if r is Err {
        let i = choose|i: int|
            0 <= i < refs.len() && cache.may_be_unavailable(#[trigger] refs[i]);
        let object = cache.overrides@[refs[i].0].object->Object_0;
        law_override_object_wins(cache, refs[i].0, object);
        assert(cache.get_object_by_key_post(refs[i].0, object.version(), None));
    }
}

/// A reference to an object that left consensus is never live.
pub proof fn law_ended_reference_is_not_live<R: ObjectCacheRead, H: Fn(&Object) -> ObjectDigest>(
    cache: OverrideCache<R, H>,
    refs: Seq<ObjectRef>,
    i: int,
    r: SuiResult<()>,
)
    requires
        0 <= i < refs.len(),
        !refs[i].0.is_clock(),
        cache.overrides@.contains_key(refs[i].0),
        cache.overrides@[refs[i].0].object is ObjectConsensusStreamEnded,
        cache.check_owned_objects_are_live_post(refs, r),
    ensures
        r is Err,
{
    law_ended_object_has_no_version(cache, refs[i].0);
    if r is Ok {
        assert(cache.may_be_live(refs[i]));
    }
}

/// The traits that read objects and packages give the same answers.
pub proof fn law_traits_agree<R: ObjectCacheRead, H: Fn(&Object) -> ObjectDigest>(
    cache: OverrideCache<R, H>,
    id: ObjectID,
    version: SequenceNumber,
    r: Option<Object>,
    package: SuiResult<Option<PackageObject>>,
)
    ensures
        cache.object_pre(id) == cache.get_object_pre(id),
        cache.object_post(id, r) == cache.get_object_post(id, r),
        cache.object_by_key_pre(id, version) == cache.get_object_by_key_pre(id, version),
        cache.object_by_key_post(id, version, r) == cache.get_object_by_key_post(id, version, r),
        cache.package_pre(id) == cache.get_package_object_pre(id),
        cache.package_post(id, package) == cache.get_package_object_post(id, package),
{
}

} // verus!
