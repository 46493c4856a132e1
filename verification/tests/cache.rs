use override_cache::base_types::{ObjectID, SequenceNumber, SuiAddress, TransactionDigest};
use override_cache::clock::sui_clock_object_id;
use override_cache::error::{SuiError, SuiResult, UserInputError};
use override_cache::object::{
    Data, MoveObject, MovePackage, Object, ObjectDigest, ObjectInner, ObjectKey, ObjectOrTombstone,
    ObjectRef, Owner, PackageObject, StructTag,
};
use override_cache::override_cache::{
    check_child_access, check_receipt, compute_tombstone, overridden_object,
    ExecutionCacheTraitPointers, OverrideCache,
};
use override_cache::storage::{
    BackingPackageStore, ChildObjectResolver, FullObjectID, FullObjectKey, InputKey, MarkerValue,
    ObjectCacheRead, ObjectStore,
};
use override_cache::transaction::{InputObjectKind, ObjectReadResult, ObjectReadResultKind};
use std::cell::Cell;
use std::sync::Arc;

/// A store that holds all versions of its objects in a list.
struct Store {
    objects: Vec<Object>,
    received: Vec<FullObjectKey>,
    reloads: Cell<usize>,
}

impl Store {
    fn latest(&self, id: &ObjectID) -> Option<Object> {
        let mut best: Option<Object> = None;
        for o in &self.objects {
            if o.id() == *id
                && best.as_ref().map_or(true, |b| b.version().value < o.version().value)
            {
                best = Some(o.clone());
            }
        }
        best
    }
}

impl ObjectCacheRead for Store {
    type EpochStore = u8;
    type LockStatus = u8;
    type SystemState = u16;
    type Bridge = u32;

    fn get_package_object(&self, id: &ObjectID) -> SuiResult<Option<PackageObject>> {
        Ok(self.latest(id).map(PackageObject::new))
    }
    fn force_reload_system_packages(&self, system_package_ids: &[ObjectID]) {
        self.reloads.set(self.reloads.get() + system_package_ids.len());
    }
    fn get_object(&self, id: &ObjectID) -> Option<Object> {
        self.latest(id)
    }
    fn get_latest_object_ref_or_tombstone(&self, object_id: ObjectID) -> Option<ObjectRef> {
        self.latest(&object_id).map(|o| ObjectRef(o.id(), o.version(), ObjectDigest { bytes: [9; 32] }))
    }
    fn get_latest_object_or_tombstone(
        &self,
        object_id: ObjectID,
    ) -> Option<(ObjectKey, ObjectOrTombstone)> {
        self.latest(&object_id)
            .map(|o| (ObjectKey(o.id(), o.version()), ObjectOrTombstone::Object(o)))
    }
    fn get_object_by_key(&self, object_id: &ObjectID, version: SequenceNumber) -> Option<Object> {
        self.objects.iter().find(|o| o.id() == *object_id && o.version() == version).cloned()
    }
    fn multi_get_objects_by_key(&self, _keys: &[ObjectKey]) -> Vec<Option<Object>> {
        panic!("the cache asks one by one")
    }
    fn object_exists_by_key(&self, _id: &ObjectID, _version: SequenceNumber) -> bool {
        panic!("the cache reads the object")
    }
    fn multi_object_exists_by_key(&self, _keys: &[ObjectKey]) -> Vec<bool> {
        panic!("the cache asks one by one")
    }
    fn multi_input_objects_available_cache_only(&self, keys: &[InputKey]) -> Vec<bool> {
        keys.iter().map(|k| matches!(k, InputKey::Package { .. })).collect()
    }
    fn find_object_lt_or_eq_version(
        &self,
        object_id: ObjectID,
        version: SequenceNumber,
    ) -> Option<Object> {
        let mut best: Option<Object> = None;
        for o in &self.objects {
            if o.id() == object_id
                && o.version().value <= version.value
                && best.as_ref().map_or(true, |b| b.version().value < o.version().value)
            {
                best = Some(o.clone());
            }
        }
        best
    }
    fn get_lock(&self, obj_ref: ObjectRef, epoch_store: &u8) -> SuiResult<u8> {
        Ok(*epoch_store + obj_ref.1.value as u8)
    }
    fn _get_live_objref(&self, object_id: ObjectID) -> SuiResult<ObjectRef> {
        match self.latest(&object_id) {
            Some(o) => Ok(ObjectRef(o.id(), o.version(), ObjectDigest { bytes: [9; 32] })),
            None => Err(SuiError::Storage("no such object".to_string())),
        }
    }
    fn check_owned_objects_are_live(&self, _refs: &[ObjectRef]) -> SuiResult<()> {
        panic!("the cache asks one by one")
    }
    fn get_sui_system_state_object_unsafe(&self) -> SuiResult<u16> {
        Ok(77)
    }
    fn get_bridge_object_unsafe(&self) -> SuiResult<u32> {
        Err(SuiError::Storage("no bridge".to_string()))
    }
    fn get_marker_value(&self, object_key: FullObjectKey, epoch_id: u64) -> Option<MarkerValue> {
        if epoch_id == 5 && self.received.contains(&object_key) {
            Some(MarkerValue::Received)
        } else {
            Some(MarkerValue::FastpathStreamEnded)
        }
    }
    fn get_latest_marker(
        &self,
        _object_id: FullObjectID,
        epoch_id: u64,
    ) -> Option<(SequenceNumber, MarkerValue)> {
        Some((SequenceNumber::from_u64(epoch_id), MarkerValue::Received))
    }
    fn get_highest_pruned_checkpoint(&self) -> Option<u64> {
        Some(1234)
    }
}

fn id(n: u8) -> ObjectID {
    ObjectID::from_single_byte(n)
}

fn version(n: u64) -> SequenceNumber {
    SequenceNumber::from_u64(n)
}

fn move_object_of(n: u8, v: u64, owner: Owner) -> Object {
    let mut contents = id(n).bytes.to_vec();
    contents.extend_from_slice(&[1, 2, 3]);
    let tag = StructTag {
        address: id(2),
        module: "coin".to_string(),
        name: "Coin".to_string(),
        type_params: vec!["0x2::sui::SUI".to_string()],
    };
    Object::new(ObjectInner {
        data: Data::Move(MoveObject::new(tag, true, version(v), contents).unwrap()),
        owner,
        previous_transaction: TransactionDigest { bytes: [7; 32] },
        storage_rebate: 11,
    })
}

fn move_object(n: u8, v: u64) -> Object {
    move_object_of(n, v, Owner::Immutable)
}

fn package(n: u8, v: u64) -> Object {
    Object::new(ObjectInner {
        data: Data::Package(MovePackage { id: id(n), version: version(v), contents: vec![4] }),
        owner: Owner::Immutable,
        previous_transaction: TransactionDigest { bytes: [7; 32] },
        storage_rebate: 0,
    })
}

/// A hash that tells apart the objects of these tests.
fn hash(object: &Object) -> ObjectDigest {
    let mut bytes = object.id().bytes;
    bytes[0] = object.version().value as u8;
    bytes[1] = match &object.inner.data {
        Data::Move(m) => m.contents().iter().fold(0, |sum: u8, b| sum.wrapping_add(*b)),
        Data::Package(_) => 255,
    };
    ObjectDigest { bytes }
}

type Hash = fn(&Object) -> ObjectDigest;

fn pointers<R>(reader: R) -> ExecutionCacheTraitPointers<R, Hash> {
    ExecutionCacheTraitPointers { object_cache_reader: Arc::new(reader), object_hash: hash }
}

fn owned_input(object: &Object) -> ObjectReadResult {
    ObjectReadResult {
        input_object_kind: InputObjectKind::ImmOrOwnedMoveObject(reference(object)),
        object: ObjectReadResultKind::Object(object.clone()),
    }
}

fn shared_input(n: u8, object: ObjectReadResultKind) -> ObjectReadResult {
    ObjectReadResult {
        input_object_kind: InputObjectKind::SharedMoveObject {
            id: id(n),
            initial_shared_version: version(3),
            mutable: false,
        },
        object,
    }
}

fn ended_input(n: u8) -> ObjectReadResult {
    shared_input(
        n,
        ObjectReadResultKind::ObjectConsensusStreamEnded(
            version(8),
            TransactionDigest { bytes: [5; 32] },
        ),
    )
}

fn cache_over(objects: Vec<Object>, list: Vec<ObjectReadResult>) -> OverrideCache<Store, Hash> {
    let store = Store { objects, received: Vec::new(), reloads: Cell::new(0) };
    OverrideCache::new(pointers(store), list)
}

/// A reference that was kept since before the cache was made.
fn reference(object: &Object) -> ObjectRef {
    ObjectRef(object.id(), object.version(), hash(object))
}

#[test]
fn last_listed_override_wins() {
    let first = move_object(20, 1);
    let second = move_object(20, 2);
    let cache = cache_over(vec![], vec![owned_input(&first), owned_input(&second)]);
    assert_eq!(cache.get_override(&id(20)), Some(owned_input(&second)));
    assert_eq!(cache.get_override_object(&id(20)), Some(second));
    assert_eq!(cache.get_override(&id(21)), None);
    assert_eq!(cache.get_override_object(&id(21)), None);
}

#[test]
fn overrides_are_filed_under_the_id_of_the_input() {
    let object = move_object(20, 1);
    let input = shared_input(30, ObjectReadResultKind::Object(object.clone()));
    let cache = cache_over(vec![], vec![input]);
    assert_eq!(cache.get_override_object(&id(30)), Some(object));
    assert_eq!(cache.get_override_object(&id(20)), None);
}

#[test]
fn package_inputs_are_filed_under_their_id() {
    let input = ObjectReadResult {
        input_object_kind: InputObjectKind::MovePackage(id(40)),
        object: ObjectReadResultKind::Object(package(40, 6)),
    };
    assert_eq!(input.id(), id(40));
    let cache = cache_over(vec![], vec![input]);
    let found = PackageObject::new(package(40, 6));
    assert_eq!(ObjectCacheRead::get_package_object(&cache, &id(40)), Ok(Some(found)));
    assert_eq!(ObjectCacheRead::get_package_object(&cache, &id(41)), Ok(None));
}

#[test]
fn override_object_decides_every_read() {
    let ours = move_object(20, 7);
    let theirs = move_object(20, 9);
    let cache = cache_over(vec![theirs], vec![owned_input(&ours)]);
    assert_eq!(ObjectCacheRead::get_object(&cache, &id(20)), Some(ours.clone()));
    assert_eq!(cache.get_latest_object_ref_or_tombstone(id(20)), Some(reference(&ours)));
    assert_eq!(
        cache.get_latest_object_or_tombstone(id(20)),
        Some((ObjectKey(id(20), version(7)), ObjectOrTombstone::Object(ours.clone())))
    );
    assert_eq!(
        ObjectCacheRead::get_object_by_key(&cache, &id(20), version(7)),
        Some(ours.clone())
    );
    assert!(cache.object_exists_by_key(&id(20), version(7)));
    assert_eq!(cache._get_live_objref(id(20)), Ok(reference(&ours)));
    assert_eq!(cache.find_object_lt_or_eq_version(id(20), version(7)), Some(ours.clone()));
    assert_eq!(cache.find_object_lt_or_eq_version(id(20), version(100)), Some(ours.clone()));
    assert_eq!(cache.check_owned_objects_are_live(&[reference(&ours)]), Ok(()));
}

#[test]
fn other_versions_come_from_the_fallback() {
    let ours = move_object(20, 7);
    let theirs = move_object(20, 5);
    let cache = cache_over(vec![theirs.clone()], vec![owned_input(&ours)]);
    assert_eq!(
        ObjectCacheRead::get_object_by_key(&cache, &id(20), version(5)),
        Some(theirs.clone())
    );
    assert_eq!(ObjectCacheRead::get_object_by_key(&cache, &id(20), version(6)), None);
    assert_eq!(cache.find_object_lt_or_eq_version(id(20), version(6)), Some(theirs));
    assert_eq!(cache.find_object_lt_or_eq_version(id(20), version(4)), None);
}

#[test]
fn unlisted_object_comes_from_the_fallback() {
    let theirs = move_object(20, 5);
    let cache = cache_over(vec![move_object(20, 4), theirs.clone()], vec![]);
    let theirs_ref = ObjectRef(id(20), version(5), ObjectDigest { bytes: [9; 32] });
    assert_eq!(ObjectCacheRead::get_object(&cache, &id(20)), Some(theirs.clone()));
    assert_eq!(cache.get_latest_object_ref_or_tombstone(id(20)), Some(theirs_ref));
    assert_eq!(
        cache.get_latest_object_or_tombstone(id(20)),
        Some((ObjectKey(id(20), version(5)), ObjectOrTombstone::Object(theirs.clone())))
    );
    assert_eq!(cache._get_live_objref(id(20)), Ok(theirs_ref));
    assert_eq!(
        cache._get_live_objref(id(21)),
        Err(SuiError::Storage("no such object".to_string()))
    );
    assert_eq!(cache.find_object_lt_or_eq_version(id(20), version(4)), Some(move_object(20, 4)));
    assert_eq!(cache.find_object_lt_or_eq_version(id(21), version(4)), None);
    assert_eq!(ObjectStore::get_object(&cache, &id(20)), Some(theirs.clone()));
    assert_eq!(ObjectStore::get_object_by_key(&cache, &id(20), version(5)), Some(theirs));
    assert_eq!(ObjectStore::get_object_by_key(&cache, &id(20), version(6)), None);
}

#[test]
fn ended_object_has_no_version() {
    let theirs = move_object(20, 5);
    let cache = cache_over(vec![theirs.clone()], vec![ended_input(20), ended_input(21)]);
    assert_eq!(ObjectCacheRead::get_object_by_key(&cache, &id(20), version(5)), None);
    assert!(!cache.object_exists_by_key(&id(20), version(5)));
    assert_eq!(
        cache._get_live_objref(id(20)),
        Err(SuiError::UserInputError {
            error: UserInputError::ObjectNotFound { object_id: id(20), version: None }
        })
    );
    assert_eq!(
        cache.get_latest_object_or_tombstone(id(20)),
        Some((
            ObjectKey(id(20), version(5)),
            ObjectOrTombstone::Tombstone(reference(&theirs))
        ))
    );
    assert_eq!(cache.get_latest_object_or_tombstone(id(21)), None);
    assert_eq!(cache.get_override_object(&id(20)), None);
    assert_eq!(ObjectCacheRead::get_object(&cache, &id(20)), Some(theirs));
    assert_eq!(
        cache.get_latest_object_ref_or_tombstone(id(20)),
        Some(ObjectRef(id(20), version(5), ObjectDigest { bytes: [9; 32] }))
    );
    let object_ref = ObjectRef(id(20), version(5), ObjectDigest { bytes: [9; 32] });
    assert_eq!(
        cache.check_owned_objects_are_live(&[object_ref]),
        Err(SuiError::UserInputError {
            error: UserInputError::ObjectVersionUnavailableForConsumption {
                provided_obj_ref: object_ref,
                current_version: version(5),
            }
        })
    );
}

#[test]
fn first_missing_reference_is_reported() {
    let ours = move_object(20, 7);
    let cache = cache_over(vec![move_object(22, 1)], vec![owned_input(&ours)]);
    let present = ObjectRef(id(22), version(1), ObjectDigest { bytes: [1; 32] });
    let missing = ObjectRef(id(20), version(6), ObjectDigest { bytes: [2; 32] });
    let later = ObjectRef(id(23), version(2), ObjectDigest { bytes: [3; 32] });
    assert_eq!(cache.check_owned_objects_are_live(&[]), Ok(()));
    assert_eq!(cache.check_owned_objects_are_live(&[present, reference(&ours)]), Ok(()));
    assert_eq!(
        cache.check_owned_objects_are_live(&[present, missing, later]),
        Err(SuiError::UserInputError {
            error: UserInputError::ObjectVersionUnavailableForConsumption {
                provided_obj_ref: missing,
                current_version: version(6),
            }
        })
    );
}

#[test]
fn many_reads_agree_with_single_reads() {
    let ours = move_object(20, 7);
    let cache = cache_over(vec![move_object(22, 1)], vec![owned_input(&ours), ended_input(21)]);
    let keys = [
        ObjectKey(id(20), version(7)),
        ObjectKey(id(21), version(7)),
        ObjectKey(id(22), version(1)),
        ObjectKey(id(22), version(2)),
    ];
    assert_eq!(
        cache.multi_get_objects_by_key(&keys),
        vec![Some(ours), None, Some(move_object(22, 1)), None]
    );
    assert_eq!(cache.multi_object_exists_by_key(&keys), vec![true, false, true, false]);
    assert_eq!(cache.multi_get_objects_by_key(&[]), vec![]);
    assert!(cache.multi_object_exists_by_key(&[]).is_empty());
}

#[test]
fn child_belongs_to_parent() {
    let parent = id(50);
    let owned = move_object_of(20, 3, Owner::ObjectOwner(SuiAddress { bytes: parent.bytes }));
    let cache = cache_over(vec![move_object(21, 3)], vec![owned_input(&owned)]);
    assert_eq!(cache.read_child_object(&parent, &id(20), version(3)), Ok(Some(owned.clone())));
    assert_eq!(cache.read_child_object(&parent, &id(20), version(2)), Ok(None));
    assert_eq!(cache.read_child_object(&parent, &id(22), version(3)), Ok(None));
    assert_eq!(
        cache.read_child_object(&id(51), &id(20), version(3)),
        Err(SuiError::InvalidChildObjectAccess {
            object: id(20),
            given_parent: id(51),
            actual_owner: owned.inner.owner,
        })
    );
    assert_eq!(
        cache.read_child_object(&parent, &id(21), version(9)),
        Err(SuiError::InvalidChildObjectAccess {
            object: id(21),
            given_parent: parent,
            actual_owner: Owner::Immutable,
        })
    );
    assert_eq!(check_child_access(&parent, &id(20), None), Ok(None));
}

#[test]
fn receipts_that_are_refused_look_alike() {
    let owner = id(60);
    let mine = Owner::AddressOwner(SuiAddress { bytes: owner.bytes });
    let as_object = Owner::ObjectOwner(SuiAddress { bytes: owner.bytes });
    let fresh = move_object_of(20, 3, mine);
    let taken = move_object_of(21, 4, mine);
    let foreign = move_object_of(22, 5, as_object);
    let store = Store {
        objects: vec![taken.clone(), foreign],
        received: vec![FullObjectKey::Fastpath(ObjectKey(id(21), version(4)))],
        reloads: Cell::new(0),
    };
    let cache = OverrideCache::new(pointers(store), vec![owned_input(&fresh)]);
    let receive = |n: u8, v: u64, epoch: u64| {
        cache.get_object_received_at_version(&owner, &id(n), version(v), epoch)
    };
    assert_eq!(receive(20, 3, 5), Ok(Some(fresh)));
    assert_eq!(receive(21, 4, 5), Ok(None));
    assert_eq!(receive(21, 4, 6), Ok(Some(taken)));
    assert_eq!(receive(22, 5, 5), Ok(None));
    assert_eq!(receive(23, 1, 5), Ok(None));
    assert_eq!(receive(20, 4, 5), Ok(None));
}

#[test]
fn clock_is_overridden_whatever_is_listed() {
    let clock = sui_clock_object_id();
    let listed = move_object(6, 9);
    for list in [vec![], vec![owned_input(&listed)], vec![ended_input(6)]] {
        let cache = cache_over(vec![listed.clone()], list);
        let read = cache.get_override_at(&clock, Some(0x0102_0304_0506_0708)).unwrap();
        assert_eq!(
            read.input_object_kind,
            InputObjectKind::SharedMoveObject {
                id: clock,
                initial_shared_version: version(1),
                mutable: true
            }
        );
        let object = overridden_object(Some(read)).unwrap();
        assert_eq!(object.id(), clock);
        assert_eq!(object.version(), version(1));
        assert_eq!(cache.get_override_at(&clock, None), None);
        let now = ObjectCacheRead::get_object(&cache, &clock).unwrap();
        assert_eq!(now.inner.owner, Owner::Shared { initial_shared_version: version(1) });
        let by_key = ObjectCacheRead::get_object_by_key(&cache, &clock, version(1)).unwrap();
        assert_eq!(by_key.version(), version(1));
        // Another version is the fallback's.
        assert_eq!(
            ObjectCacheRead::get_object_by_key(&cache, &clock, version(9)),
            Some(listed.clone())
        );
    }
}

#[test]
fn clock_at_one_reading_answers_every_request() {
    let clock = sui_clock_object_id();
    let theirs = move_object(6, 1);
    let cache = cache_over(vec![theirs.clone()], vec![owned_input(&theirs)]);
    let read = cache.get_override_at(&clock, Some(1_234_567_890));
    let object = overridden_object(read.clone()).unwrap();
    assert_ne!(object, theirs);
    assert_eq!(cache.object_under(read.clone(), &clock), Some(object.clone()));
    assert_eq!(cache.version_under(read.clone(), &clock, version(1)), Some(object.clone()));
    assert_eq!(cache.version_under(read.clone(), &clock, version(2)), None);
    assert_eq!(cache.latest_ref_under(read.clone(), clock), Some(reference(&object)));
    assert_eq!(
        cache.latest_under(read.clone(), clock),
        Some((ObjectKey(clock, version(1)), ObjectOrTombstone::Object(object.clone())))
    );
    assert_eq!(cache.live_ref_under(read, clock), Ok(reference(&object)));
    assert_eq!(
        cache.bounded_under(Some(object.clone()), clock, version(1)),
        Some(object.clone())
    );
    assert_eq!(cache.bounded_under(Some(object), clock, version(0)), None);
    // Before the epoch the fallback is asked, not the list.
    assert_eq!(cache.get_override_at(&clock, None), None);
    assert_eq!(cache.object_under(None, &clock), Some(theirs.clone()));
    assert_eq!(cache.version_under(None, &clock, version(1)), Some(theirs));
}

#[test]
fn packages_under_an_override() {
    let cache = cache_over(vec![package(41, 3)], vec![]);
    let ours = package(40, 6);
    assert_eq!(
        cache.package_under(Some(owned_input(&ours)), &id(40)),
        Ok(Some(PackageObject { package_object: ours }))
    );
    assert_eq!(
        cache.package_under(Some(ended_input(41)), &id(41)),
        Ok(Some(PackageObject { package_object: package(41, 3) }))
    );
    assert_eq!(cache.package_under(None, &id(42)), Ok(None));
}

#[test]
fn pass_through_reads() {
    let cache = cache_over(vec![], vec![]);
    cache.force_reload_system_packages(&[id(1), id(2)]);
    assert_eq!(cache.fallback.object_cache_reader.reloads.get(), 2);
    let keys = [
        InputKey::Package { id: id(1) },
        InputKey::VersionedObject { id: FullObjectID::Fastpath(id(2)), version: version(1) },
    ];
    assert_eq!(cache.multi_input_objects_available_cache_only(&keys), vec![true, false]);
    let object_ref = ObjectRef(id(1), version(4), ObjectDigest { bytes: [0; 32] });
    assert_eq!(cache.get_lock(object_ref, &38), Ok(42));
    assert_eq!(cache.get_sui_system_state_object_unsafe(), Ok(77));
    assert_eq!(
        cache.get_bridge_object_unsafe(),
        Err(SuiError::Storage("no bridge".to_string()))
    );
    assert_eq!(
        cache.get_latest_marker(FullObjectID::Consensus(id(1), version(2)), 3),
        Some((version(3), MarkerValue::Received))
    );
    let key = FullObjectKey::Consensus(id(1), version(2), version(3));
    assert_eq!(cache.get_marker_value(key, 5), Some(MarkerValue::FastpathStreamEnded));
    assert!(!cache.have_received_object_at_version(key, 5));
    assert_eq!(cache.get_highest_pruned_checkpoint(), Some(1234));
}

#[test]
fn packages_are_read_through_both_traits() {
    let ours = package(40, 6);
    let cache = cache_over(vec![package(40, 2), package(41, 3)], vec![owned_input(&ours)]);
    let found = Ok(Some(PackageObject { package_object: ours }));
    assert_eq!(BackingPackageStore::get_package_object(&cache, &id(40)), found);
    assert_eq!(
        BackingPackageStore::get_package_object(&cache, &id(41)),
        Ok(Some(PackageObject { package_object: package(41, 3) }))
    );
}

#[test]
fn stacked_caches_ask_downwards() {
    let inner = cache_over(
        vec![move_object(22, 1)],
        vec![owned_input(&move_object(20, 7)), owned_input(&move_object(21, 7))],
    );
    let outer = OverrideCache::new(
        pointers(inner),
        vec![owned_input(&move_object(20, 8))],
    );
    assert_eq!(ObjectCacheRead::get_object(&outer, &id(20)), Some(move_object(20, 8)));
    assert_eq!(
        ObjectCacheRead::get_object_by_key(&outer, &id(20), version(7)),
        Some(move_object(20, 7))
    );
    assert_eq!(ObjectCacheRead::get_object(&outer, &id(21)), Some(move_object(21, 7)));
    assert_eq!(ObjectCacheRead::get_object(&outer, &id(22)), Some(move_object(22, 1)));
    assert_eq!(ObjectCacheRead::get_object(&outer, &id(23)), None);
}

#[test]
fn tombstones_name_the_object_they_are_for() {
    assert_eq!(compute_tombstone(None, &hash), None);
    let object = move_object(20, 5);
    assert_eq!(
        compute_tombstone(Some(object.clone()), &hash),
        Some((ObjectKey(id(20), version(5)), ObjectOrTombstone::Tombstone(reference(&object))))
    );
}

#[test]
fn computed_references_equal_kept_ones() {
    let ours = move_object(20, 7);
    let mut bytes = [0; 32];
    bytes[0] = 7;
    // The id and the bytes 1, 2 and 3.
    bytes[1] = 26;
    bytes[31] = 20;
    let kept = ObjectRef(id(20), version(7), ObjectDigest { bytes });
    assert_eq!(ours.compute_object_reference(&hash), kept);
    let other = |_: &Object| ObjectDigest { bytes: [8; 32] };
    assert_eq!(ours.compute_object_reference(&other).2.bytes, [8; 32]);
    let cache = cache_over(vec![], vec![owned_input(&ours)]);
    assert_eq!(cache.get_latest_object_ref_or_tombstone(id(20)), Some(kept));
    assert_eq!(cache._get_live_objref(id(20)), Ok(kept));
    assert_eq!(owned_input(&ours).input_object_kind, InputObjectKind::ImmOrOwnedMoveObject(kept));
    let ended = cache_over(vec![ours], vec![ended_input(20)]);
    assert_eq!(
        ended.get_latest_object_or_tombstone(id(20)),
        Some((ObjectKey(id(20), version(7)), ObjectOrTombstone::Tombstone(kept)))
    );
    bytes[0] = 8;
    assert_ne!(ObjectRef(id(20), version(7), ObjectDigest { bytes }), kept);
}

#[test]
fn lists_that_name_the_clock() {
    let clock = sui_clock_object_id();
    let ours = move_object(20, 7);
    let theirs = move_object(6, 4);
    let cache = cache_over(vec![theirs.clone(), move_object(22, 1)], vec![]);
    let read = cache.get_override_at(&clock, Some(1_234_567_890));
    let shown = overridden_object(read.clone()).unwrap();
    let keys = [
        ObjectKey(clock, version(1)),
        ObjectKey(clock, version(4)),
        ObjectKey(clock, version(5)),
        ObjectKey(id(20), version(7)),
        ObjectKey(id(21), version(7)),
        ObjectKey(id(22), version(1)),
    ];
    let results = || {
        vec![
            read.clone(),
            read.clone(),
            read.clone(),
            Some(owned_input(&ours)),
            Some(ended_input(21)),
            None,
        ]
    };
    assert_eq!(
        cache.versions_under(results(), &keys),
        vec![
            Some(shown.clone()),
            Some(theirs),
            None,
            Some(ours.clone()),
            None,
            Some(move_object(22, 1)),
        ]
    );
    assert_eq!(
        cache.existences_under(results(), &keys),
        vec![true, true, false, true, false, true]
    );
    assert_eq!(cache.versions_under(vec![], &[]), vec![]);
    assert!(cache.existences_under(vec![], &[]).is_empty());
    // The same through the reads, at whatever time it is.
    assert_eq!(
        cache.multi_object_exists_by_key(&keys),
        vec![true, true, false, false, false, true]
    );
    assert_eq!(cache.multi_get_objects_by_key(&keys[..1])[0].as_ref().unwrap().id(), clock);
}

#[test]
fn liveness_under_overrides() {
    let clock = sui_clock_object_id();
    let cache = cache_over(vec![move_object(22, 1)], vec![]);
    let read = cache.get_override_at(&clock, Some(1_234_567_890));
    let shown = overridden_object(read.clone()).unwrap();
    let ours = move_object(20, 7);
    let present = ObjectRef(id(22), version(1), ObjectDigest { bytes: [1; 32] });
    let ended = ObjectRef(id(21), version(7), ObjectDigest { bytes: [2; 32] });
    let missing = ObjectRef(clock, version(2), ObjectDigest { bytes: [3; 32] });
    let error = |provided_obj_ref: ObjectRef| {
        Err(SuiError::UserInputError {
            error: UserInputError::ObjectVersionUnavailableForConsumption {
                provided_obj_ref,
                current_version: provided_obj_ref.1,
            },
        })
    };
    assert_eq!(cache.liveness_under(vec![], &[]), Ok(()));
    assert_eq!(
        cache.liveness_under(
            vec![read.clone(), None, Some(owned_input(&ours))],
            &[reference(&shown), present, reference(&ours)],
        ),
        Ok(())
    );
    assert_eq!(
        cache.liveness_under(
            vec![None, read.clone(), Some(ended_input(21))],
            &[present, missing, ended],
        ),
        error(missing)
    );
    assert_eq!(
        cache.liveness_under(vec![Some(ended_input(21)), read], &[ended, missing]),
        error(ended)
    );
    assert_eq!(cache.check_owned_objects_are_live(&[reference(&shown), present]), Ok(()));
    assert_eq!(cache.check_owned_objects_are_live(&[present, missing]), error(missing));
}

#[test]
fn receipts_of_found_objects() {
    let owner = id(60);
    let mine = move_object_of(20, 3, Owner::AddressOwner(SuiAddress { bytes: owner.bytes }));
    let foreign = move_object_of(20, 3, Owner::AddressOwner(SuiAddress { bytes: id(61).bytes }));
    let child = move_object_of(20, 3, Owner::ObjectOwner(SuiAddress { bytes: owner.bytes }));
    assert_eq!(check_receipt(&owner, Some(mine.clone()), false), Ok(Some(mine.clone())));
    assert_eq!(check_receipt(&owner, Some(mine), true), Ok(None));
    for received in [false, true] {
        assert_eq!(check_receipt(&owner, Some(foreign.clone()), received), Ok(None));
        assert_eq!(check_receipt(&owner, Some(child.clone()), received), Ok(None));
        assert_eq!(check_receipt(&owner, None, received), Ok(None));
    }
}
