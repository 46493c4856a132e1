//! What the values are made of.
use crate::base_types::{
    small_number_bytes, ObjectID, SequenceNumber, SuiAddress, TransactionDigest,
    OBJECT_START_VERSION,
};
use crate::clock::{
    clock_object_at, clock_object_at_reading, clock_object_for, clock_read, clock_type, is_clock_id,
    is_clock_object, is_reading, latest_clock_object, le_bytes, lemma_le_bytes_read_back,
    millis_of, shown_time, sui_clock_object_id, ClockError,
};
use crate::error::{SuiError, SuiResult};
use crate::laws::{law_last_listed_wins, law_unnamed_id_has_no_override};
use crate::object::{
    Data, MoveObject, Object, ObjectDigest, ObjectInner, ObjectKey, ObjectOrTombstone,
    ObjectRef, Owner, PackageObject, StructTag,
};
use crate::override_cache::{
    check_child_access, check_receipt, compute_tombstone, overridden_object,
    ExecutionCacheTraitPointers, OverrideCache,
};
use crate::transaction::{InputObjectKind, ObjectReadResult, ObjectReadResultKind};
use vstd::prelude::*;
use vstd::std_specs::cmp::PartialEqSpec;

verus! {

broadcast use vstd::array::group_array_axioms;

/// Whether bytes spell a number below 256 in 32 bytes, most significant first.
pub open spec fn spells(bytes: Seq<u8>, n: u8) -> bool {
    &&& bytes.len() == 32
    &&& bytes[31] == n
    &&& forall|i: int| 0 <= i < 31 ==> bytes[i] == 0
}

/// Whether an object is the clock object for a reading of so many nanoseconds
/// since the epoch, part by part: shared since version 1 and still in it, of type
/// `0x2::clock::Clock`, with the 32 bytes of its id `0x6` as contents and then,
/// least significant byte first, the low 64 bits of the whole milliseconds.
pub open spec fn is_clock_at(object: Object, nanos: u128) -> bool {
    &&& object.inner.owner matches Owner::Shared { initial_shared_version }
    &&& initial_shared_version.value == 1
    &&& object.inner.storage_rebate == 0
    &&& spells(object.inner.previous_transaction.bytes@, 0)
    &&& object.inner.data matches Data::Move(m)
    &&& m.spec_version().value == 1
    &&& !m.spec_has_public_transfer()
    &&& spells(m.spec_type().address.bytes@, 2)
    &&& m.spec_type().module@ == "clock"@
    &&& m.spec_type().name@ == "Clock"@
    &&& m.spec_type().type_params@.len() == 0
    &&& spells(m.spec_id().bytes@, 6)
    &&& m.spec_contents().len() == 40
    &&& spells(m.spec_contents().take(32), 6)
    &&& m.spec_contents()[32] + m.spec_contents()[33] * 0x100 + m.spec_contents()[34] * 0x1_0000
        + m.spec_contents()[35] * 0x100_0000 + m.spec_contents()[36] * 0x1_0000_0000
        + m.spec_contents()[37] * 0x100_0000_0000 + m.spec_contents()[38] * 0x1_0000_0000_0000
        + m.spec_contents()[39] * 0x100_0000_0000_0000 == (nanos as int / 1_000_000)
        % 0x1_0000_0000_0000_0000
}

/// An id that is made from a number below 256 spells it.
pub proof fn law_small_ids_spell_their_number(n: u8, r: ObjectID)
    requires
        call_ensures(ObjectID::from_single_byte, (n,), r),
    ensures
        spells(r.bytes@, n),
        r.bytes@ == small_number_bytes(n),
{
}

/// The clock is the object `0x6`, and no other id is taken for its id.
pub proof fn law_clock_id(id: ObjectID)
    ensures
        id.is_clock() <==> spells(id.bytes@, 6),
        forall|r: bool| #[trigger]
            call_ensures(is_clock_id, (&id,), r) ==> r == spells(id.bytes@, 6),
        forall|r: ObjectID| #[trigger]
            call_ensures(sui_clock_object_id, (), r) ==> spells(r.bytes@, 6),
{
    if spells(id.bytes@, 6) {
        assert(id.bytes@ =~= small_number_bytes(6));
    }
}

/// The address of an id has its 32 bytes, so distinct ids have distinct addresses.
pub proof fn law_address_has_the_bytes_of_the_id(id: ObjectID, other: ObjectID)
    ensures
        id.address().bytes == id.bytes,
        forall|r: SuiAddress| #[trigger]
            call_ensures(ObjectID::to_address, (&id,), r) ==> r.bytes == id.bytes,
        id.address() == other.address() ==> id == other,
{
}

/// Ids, addresses and owners are equal exactly where they hold the same.
pub proof fn law_equality(
    ids: (ObjectID, ObjectID),
    addresses: (SuiAddress, SuiAddress),
    owners: (Owner, Owner),
)
    ensures
        ids.0.eq_spec(&ids.1) <==> ids.0.bytes == ids.1.bytes,
        addresses.0.eq_spec(&addresses.1) <==> addresses.0.bytes == addresses.1.bytes,
        owners.0.eq_spec(&owners.1) <==> match (owners.0, owners.1) {
            (Owner::AddressOwner(a), Owner::AddressOwner(b)) => a.bytes == b.bytes,
            (Owner::ObjectOwner(a), Owner::ObjectOwner(b)) => a.bytes == b.bytes,
            (
                Owner::Shared { initial_shared_version: a },
                Owner::Shared { initial_shared_version: b },
            ) => a.value == b.value,
            (Owner::Immutable, Owner::Immutable) => true,
            (
                Owner::ConsensusAddressOwner { start_version: a, owner: c },
                Owner::ConsensusAddressOwner { start_version: b, owner: d },
            ) => a.value == b.value && c.bytes == d.bytes,
            _ => false,
        },
        forall|r: bool| #[trigger]
            call_ensures(<ObjectID as PartialEq>::eq, (&ids.0, &ids.1), r) ==> r == (ids.0.bytes
                == ids.1.bytes),
        forall|r: bool| #[trigger]
            call_ensures(<SuiAddress as PartialEq>::eq, (&addresses.0, &addresses.1), r) ==> r == (
            addresses.0.bytes == addresses.1.bytes),
        forall|r: bool| #[trigger]
            call_ensures(<Owner as PartialEq>::eq, (&owners.0, &owners.1), r) ==> r == (owners.0
                == owners.1),
{
}

/// The digest that stands for no transaction is all zeros, the first version is 1,
/// and a version has the number that it is made from.
pub proof fn law_first_values(value: u64)
    ensures
        forall|r: TransactionDigest| #[trigger]
            call_ensures(TransactionDigest::genesis_marker, (), r) ==> spells(r.bytes@, 0),
        OBJECT_START_VERSION == 1,
        forall|r: SequenceNumber| #[trigger]
            call_ensures(SequenceNumber::from_u64, (value,), r) ==> r.value == value,
{
}

/// An input has the id of the object that it names, however it names it, and what
/// was read for an input is filed under that id.
pub proof fn law_input_has_the_id_that_it_names(read: ObjectReadResult, id: ObjectID)
    requires
        match read.input_object_kind {
            InputObjectKind::MovePackage(named) => named == id,
            InputObjectKind::ImmOrOwnedMoveObject(object_ref) => object_ref.0 == id,
            InputObjectKind::SharedMoveObject { id: named, .. } => named == id,
        },
    ensures
        read.id() == id,
        read.input_object_kind.object_id() == id,
        forall|r: ObjectID| #[trigger]
            call_ensures(ObjectReadResult::id, (&read,), r) ==> r == id,
        forall|r: ObjectID| #[trigger]
            call_ensures(InputObjectKind::object_id, (&read.input_object_kind,), r) ==> r == id,
{
}

/// A Move object is made of contents that are long enough to hold an id: their
/// first 32 bytes are its id, and the rest of what was given is kept.
pub proof fn law_move_object_holds_what_it_was_made_from(
    type_: StructTag,
    has_public_transfer: bool,
    version: SequenceNumber,
    contents: Vec<u8>,
    r: Option<MoveObject>,
)
    requires
        call_ensures(MoveObject::new, (type_, has_public_transfer, version, contents), r),
    ensures
        r is None <==> contents@.len() < 32,
        r matches Some(m) ==> {
            &&& forall|i: int| 0 <= i < 32 ==> m.spec_id().bytes@[i] == contents@[i]
            &&& m.spec_type() == type_
            &&& m.spec_has_public_transfer() == has_public_transfer
            &&& m.spec_version() == version
            &&& m.spec_contents() == contents@
            &&& forall|id: ObjectID| #[trigger]
                call_ensures(MoveObject::id, (&m,), id) ==> id == m.spec_id()
            &&& forall|v: SequenceNumber| #[trigger]
                call_ensures(MoveObject::version, (&m,), v) ==> v == version
            &&& forall|t: &StructTag| #[trigger]
                call_ensures(MoveObject::type_, (&m,), t) ==> *t == type_
            &&& forall|b: bool| #[trigger]
                call_ensures(MoveObject::has_public_transfer, (&m,), b) ==> b
                    == has_public_transfer
            &&& forall|c: &Vec<u8>| #[trigger]
                call_ensures(MoveObject::contents, (&m,), c) ==> c@ == contents@
        },
{
    if r is Some {
        let m = r->0;
        assert forall|i: int| 0 <= i < 32 implies m.spec_id().bytes@[i] == contents@[i] by {
            assert(m.spec_id().bytes@[i] == contents@.take(32)[i]);
        }
    }
}

/// An object has the id, the version and the contents of the Move value or the
/// package that it holds, and it is a package where it holds one.
pub proof fn law_object_is_known_by_what_it_holds(object: Object, inner: ObjectInner)
    ensures
        match object.inner.data {
            Data::Move(m) => {
                &&& object.id() == m.spec_id()
                &&& object.version() == m.spec_version()
                &&& object.contents() == m.spec_contents()
                &&& !object.is_package()
            },
            Data::Package(package) => {
                &&& object.id() == package.id
                &&& object.version() == package.version
                &&& object.contents() == package.contents@
                &&& object.is_package()
            },
        },
        object.key() == ObjectKey(object.id(), object.version()),
        forall|r: Object| #[trigger] call_ensures(Object::new, (inner,), r) ==> *r.inner == inner,
        forall|r: ObjectID| #[trigger]
            call_ensures(Object::id, (&object,), r) ==> r == object.id(),
        forall|r: SequenceNumber| #[trigger]
            call_ensures(Object::version, (&object,), r) ==> r == object.version(),
        forall|r: bool| #[trigger]
            call_ensures(Object::is_package, (&object,), r) ==> r == object.is_package(),
        forall|r: ObjectKey| #[trigger]
            call_ensures(Object::key, (&object,), r) ==> r == ObjectKey(
                object.id(),
                object.version(),
            ),
        forall|r: PackageObject| #[trigger]
            call_ensures(PackageObject::new, (object,), r) ==> r.package_object == object,
{
}

/// A reference to an object has its id, its version and a digest that the hash
/// gave for it; the key of a reference has the id and the version that it names.
pub proof fn law_reference_names_its_object<H: Fn(&Object) -> ObjectDigest>(
    object: Object,
    hash: H,
    r: ObjectRef,
)
    ensures
        object.is_referred_by(hash, r) <==> r.0 == object.id() && r.1 == object.version()
            && call_ensures(hash, (&object,), r.2),
        call_ensures(Object::compute_object_reference::<H>, (&object, &hash), r) ==> r.0
            == object.id() && r.1 == object.version() && call_ensures(hash, (&object,), r.2),
        ObjectKey::of_ref(r) == ObjectKey(r.0, r.1),
        forall|key: ObjectKey| #[trigger]
            call_ensures(ObjectKey::from_ref, (&r,), key) ==> key == ObjectKey(r.0, r.1),
{
}

/// Copies are equal to what they are copies of.
pub proof fn law_copies_are_equal(
    objects: (Object, Object),
    reads: (ObjectReadResult, ObjectReadResult),
    kinds: (ObjectReadResultKind, ObjectReadResultKind),
    inputs: (InputObjectKind, InputObjectKind),
)
    ensures
        cloned(objects.0, objects.1) ==> objects.0 == objects.1,
        cloned(reads.0, reads.1) ==> reads.0 == reads.1,
        cloned(kinds.0, kinds.1) ==> kinds.0 == kinds.1,
        cloned(inputs.0, inputs.1) ==> inputs.0 == inputs.1,
{
}

/// The object of an override is the one that was read; where another state was
/// read, and where nothing overrides, there is none.
pub proof fn law_override_gives_the_object_that_was_read(
    result: Option<ObjectReadResult>,
    r: Option<Object>,
)
    requires
        call_ensures(overridden_object, (result,), r),
    ensures
        r == match result {
            Some(read) => match read.object {
                ObjectReadResultKind::Object(object) => Some(object),
                _ => None,
            },
            None => None,
        },
{
}

/// A child goes to the parent with the bytes of its owner, and to no other.
pub proof fn law_child_access_rests_on_the_owner(
    parent: ObjectID,
    child: ObjectID,
    found: Option<Object>,
    r: SuiResult<Option<Object>>,
)
    requires
        call_ensures(check_child_access, (&parent, &child, found), r),
    ensures
        found is None ==> r == Ok::<Option<Object>, SuiError>(None),
        found matches Some(object) ==> (if object.inner.owner matches Owner::ObjectOwner(address)
            && address.bytes == parent.bytes {
            r == Ok::<_, SuiError>(found)
        } else {
            r == Err::<Option<Object>, _>(
                SuiError::InvalidChildObjectAccess {
                    object: child,
                    given_parent: parent,
                    actual_owner: object.inner.owner,
                },
            )
        }),
{
}

/// An object goes to the account with the bytes of its owner, once: it is given
/// where it is that account's and was not received, and else there is none.
pub proof fn law_receipt_rests_on_the_owner(
    owner: ObjectID,
    found: Option<Object>,
    received: bool,
    r: SuiResult<Option<Object>>,
)
    requires
        call_ensures(check_receipt, (&owner, found, received), r),
    ensures
        r is Ok,
        r->Ok_0 is Some <==> !received && (found matches Some(object)
            && object.inner.owner matches Owner::AddressOwner(address) && address.bytes
            == owner.bytes),
        r->Ok_0 is Some ==> r->Ok_0 == found,
{
}

/// A tombstone is for the object that is left: it has its key and refers to it.
/// Where none is left there is none.
pub proof fn law_tombstone_is_for_what_is_left<H: Fn(&Object) -> ObjectDigest>(
    undeleted: Option<Object>,
    hash: H,
    r: Option<(ObjectKey, ObjectOrTombstone)>,
)
    requires
        call_ensures(compute_tombstone::<H>, (undeleted, &hash), r),
    ensures
        r is Some <==> undeleted is Some,
        undeleted matches Some(object) ==> {
            &&& r matches Some(state)
            &&& state.0 == ObjectKey(object.id(), object.version())
            &&& state.1 matches ObjectOrTombstone::Tombstone(object_ref)
            &&& object_ref.0 == object.id()
            &&& object_ref.1 == object.version()
            &&& call_ensures(hash, (&object,), object_ref.2)
        },
{
}

/// A cache stands over the fallback that it was given. Of the listed overrides it
/// holds under each id the last that names it, and under no other id one.
pub proof fn law_new_cache_holds_the_list<R, H>(
    fallback: ExecutionCacheTraitPointers<R, H>,
    list: Vec<ObjectReadResult>,
    cache: OverrideCache<R, H>,
)
    requires
        call_ensures(OverrideCache::<R, H>::new, (fallback, list), cache),
    ensures
        cache.fallback == fallback,
        forall|i: int|
            0 <= i < list@.len() && (forall|j: int|
                i < j < list@.len() ==> (#[trigger] list@[j]).id() != list@[i].id())
                ==> cache.overrides@.contains_key((#[trigger] list@[i]).id())
                && cache.overrides@[list@[i].id()] == list@[i],
        forall|id: ObjectID| #[trigger]
            cache.overrides@.contains_key(id) ==> exists|i: int|
                0 <= i < list@.len() && (#[trigger] list@[i]).id() == id,
{
    assert forall|i: int|
        0 <= i < list@.len() && (forall|j: int|
            i < j < list@.len() ==> (#[trigger] list@[j]).id()
                != list@[i].id()) implies cache.overrides@.contains_key(
        (#[trigger] list@[i]).id(),
    ) && cache.overrides@[list@[i].id()] == list@[i] by {
        law_last_listed_wins(list@, i);
    }
    assert forall|id: ObjectID| #[trigger] cache.overrides@.contains_key(id) implies exists|i: int|
        0 <= i < list@.len() && (#[trigger] list@[i]).id() == id by {
        if forall|i: int| 0 <= i < list@.len() ==> (#[trigger] list@[i]).id() != id {
            law_unnamed_id_has_no_override(list@, id);
        }
    }
}

/// The override of any object but the clock is the one that the cache holds under
/// its id, whatever the system clock reads.
pub proof fn law_override_is_the_one_that_is_held<R, H>(
    cache: OverrideCache<R, H>,
    id: ObjectID,
    r: Option<ObjectReadResult>,
)
    requires
        !id.is_clock(),
    ensures
        cache.override_may_be(id, r) <==> if cache.overrides@.contains_key(id) {
            r == Some(cache.overrides@[id])
        } else {
            r is None
        },
        call_ensures(OverrideCache::<R, H>::get_override, (&cache, &id), r) ==> if
        cache.overrides@.contains_key(id) {
            r == Some(cache.overrides@[id])
        } else {
            r is None
        },
        forall|nanos: Option<u128>| #[trigger]
            call_ensures(OverrideCache::<R, H>::get_override_at, (&cache, &id, nanos), r) ==> if
            cache.overrides@.contains_key(id) {
                r == Some(cache.overrides@[id])
            } else {
                r is None
            },
        forall|object: Option<Object>| #[trigger]
            call_ensures(OverrideCache::<R, H>::get_override_object, (&cache, &id), object)
                ==> object == (if cache.overrides@.contains_key(id) {
                match cache.overrides@[id].object {
                    ObjectReadResultKind::Object(object) => Some(object),
                    _ => None,
                }
            } else {
                None
            }),
{
}

/// A clock object holds what the clock object for its reading holds.
proof fn lemma_clock_object_at(object: Object, nanos: u128)
    requires
        is_clock_object(object, shown_time(nanos)),
    ensures
        is_clock_at(object, nanos),
{
    let t = shown_time(nanos);
    let contents = object.contents();
    assert(contents =~= small_number_bytes(6) + le_bytes(t));
    assert(contents.take(32) =~= small_number_bytes(6));
    lemma_le_bytes_read_back(t);
    let s = le_bytes(t);
    assert(forall|i: int| 0 <= i < 8 ==> contents[32 + i] == s[i]);
    assert(contents[32] == s[0] && contents[33] == s[1] && contents[34] == s[2] && contents[35]
        == s[3] && contents[36] == s[4] && contents[37] == s[5] && contents[38] == s[6]
        && contents[39] == s[7]);
    assert(t == (nanos as int / 1_000_000) % 0x1_0000_0000_0000_0000);
}

/// The override of the clock at a reading since the epoch is a read of the clock
/// object for that reading, whose id and version it has; at a reading before the
/// epoch there is none.
pub proof fn law_clock_override_is_read_at_its_reading<R, H>(
    cache: OverrideCache<R, H>,
    id: ObjectID,
    nanos: Option<u128>,
    result: Option<ObjectReadResult>,
)
    requires
        id.is_clock(),
        cache.override_at(id, nanos, result),
    ensures
        match nanos {
            Some(nanos) => {
                &&& result matches Some(read)
                &&& read.input_object_kind matches InputObjectKind::SharedMoveObject {
                    id: named,
                    initial_shared_version,
                    mutable,
                }
                &&& named == id
                &&& initial_shared_version.value == 1
                &&& mutable
                &&& read.object matches ObjectReadResultKind::Object(object)
                &&& is_clock_at(object, nanos)
                &&& object.id() == id
                &&& object.version().value == 1
            },
            None => result is None,
        },
{
    if nanos is Some {
        let read = result->0;
        let object = read.object->Object_0;
        lemma_clock_object_at(object, nanos->0);
        assert(read.input_object_kind->SharedMoveObject_id.bytes =~= id.bytes);
        assert(object.id().bytes =~= id.bytes);
    }
}

/// A clock object that is made for a time shows it, and one that is made for a
/// reading shows its whole milliseconds; before the epoch there is none.
pub proof fn law_clock_objects_show_their_time(
    timestamp_ms: u64,
    nanos: Option<u128>,
    r: Result<Object, ClockError>,
)
    ensures
        call_ensures(clock_object_at, (timestamp_ms,), r) ==> (r matches Ok(object)
            && is_clock_at(object, (timestamp_ms * 1_000_000) as u128)),
        call_ensures(clock_object_at_reading, (nanos,), r) ==> match nanos {
            Some(nanos) => r matches Ok(object) && is_clock_at(object, nanos),
            None => r == Err::<Object, _>(ClockError::BeforeEpoch),
        },
        call_ensures(clock_object_for, (nanos,), r) ==> match nanos {
            Some(millis) => r matches Ok(object) && is_clock_at(
                object,
                ((millis as int % 0x1_0000_0000_0000_0000) * 1_000_000) as u128,
            ),
            None => r == Err::<Object, _>(ClockError::BeforeEpoch),
        },
        call_ensures(latest_clock_object, (), r) ==> exists|nanos: Option<u128>| #[trigger]
            is_reading(nanos) && match nanos {
                Some(nanos) => r matches Ok(object) && is_clock_at(object, nanos),
                None => r == Err::<Object, _>(ClockError::BeforeEpoch),
            },
        forall|millis: Option<u128>| #[trigger]
            call_ensures(millis_of, (nanos,), millis) ==> match nanos {
                Some(nanos) => millis matches Some(millis) && millis * 1_000_000 <= nanos < (millis
                    + 1) * 1_000_000,
                None => millis is None,
            },
{
    assert forall|object: Object, ms: u64| #[trigger]
        is_clock_object(object, ms) implies is_clock_at(object, (ms * 1_000_000) as u128) by {
        assert(shown_time((ms * 1_000_000) as u128) == ms);
        lemma_clock_object_at(object, (ms * 1_000_000) as u128);
    }
    assert forall|object: Object, n: u128| #[trigger]
        is_clock_object(object, shown_time(n)) implies is_clock_at(object, n) by {
        lemma_clock_object_at(object, n);
    }
}

/// A clock object is read as a shared object that may be changed; where there is
/// none nothing is read. Its type is `0x2::clock::Clock`.
pub proof fn law_clock_is_read_as_shared(
    clock: Result<Object, ClockError>,
    r: Option<ObjectReadResult>,
)
    ensures
        call_ensures(clock_read, (clock,), r) ==> match clock {
            Ok(object) => {
                &&& r matches Some(read)
                &&& read.object == ObjectReadResultKind::Object(object)
                &&& read.input_object_kind matches InputObjectKind::SharedMoveObject {
                    id,
                    initial_shared_version,
                    mutable,
                }
                &&& spells(id.bytes@, 6)
                &&& initial_shared_version.value == 1
                &&& mutable
            },
            Err(_) => r is None,
        },
        forall|tag: StructTag| #[trigger]
            call_ensures(clock_type, (), tag) ==> {
                &&& spells(tag.address.bytes@, 2)
                &&& tag.module@ == "clock"@
                &&& tag.name@ == "Clock"@
                &&& tag.type_params@.len() == 0
            },
{
}

} // verus!
