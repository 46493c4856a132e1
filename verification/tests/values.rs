use override_cache::base_types::{ObjectID, SequenceNumber, SuiAddress, TransactionDigest};
use override_cache::clock::{
    clock_object_at, clock_object_at_reading, clock_object_for, clock_type, latest_clock_object,
    millis_of, nanos_since_epoch, ClockError,
};
use override_cache::object::{
    Data, MoveObject, Object, ObjectDigest, ObjectInner, ObjectKey, ObjectRef, Owner, StructTag,
};
use override_cache::object_map::ObjectMap;
use override_cache::transaction::InputObjectKind;
use std::sync::Arc;
use std::time::UNIX_EPOCH;

fn tag() -> StructTag {
    StructTag {
        address: ObjectID::from_single_byte(2),
        module: "m".to_string(),
        name: "N".to_string(),
        type_params: vec![],
    }
}

fn contents_of(object: &Object) -> Vec<u8> {
    match &object.inner.data {
        Data::Move(m) => m.contents().clone(),
        Data::Package(p) => p.contents.clone(),
    }
}

#[test]
fn ids_compare_by_all_bytes() {
    for i in 0..32 {
        let mut bytes = [5u8; 32];
        bytes[i] = 6;
        assert!(ObjectID { bytes } != ObjectID { bytes: [5; 32] });
        assert!(SuiAddress { bytes } != SuiAddress { bytes: [5; 32] });
        assert!(ObjectID { bytes } == ObjectID { bytes });
    }
    let mut expected = [0u8; 32];
    expected[31] = 6;
    assert_eq!(ObjectID::from_single_byte(6).bytes, expected);
    assert_eq!(ObjectID::from_single_byte(6).to_address(), SuiAddress { bytes: expected });
    assert_eq!(TransactionDigest::genesis_marker().bytes, [0; 32]);
}

#[test]
fn owners_compare_by_kind_and_parts() {
    let a = SuiAddress { bytes: [1; 32] };
    let b = SuiAddress { bytes: [2; 32] };
    let v = SequenceNumber::from_u64(1);
    let w = SequenceNumber::from_u64(2);
    let owners = [
        Owner::AddressOwner(a),
        Owner::AddressOwner(b),
        Owner::ObjectOwner(a),
        Owner::Shared { initial_shared_version: v },
        Owner::Shared { initial_shared_version: w },
        Owner::Immutable,
        Owner::ConsensusAddressOwner { start_version: v, owner: a },
        Owner::ConsensusAddressOwner { start_version: w, owner: a },
        Owner::ConsensusAddressOwner { start_version: v, owner: b },
    ];
    for i in 0..owners.len() {
        for j in 0..owners.len() {
            assert_eq!(owners[i] == owners[j], i == j);
        }
    }
}

#[test]
fn move_object_has_the_id_of_its_contents() {
    let v = SequenceNumber::from_u64(4);
    let contents: Vec<u8> = (0..40).collect();
    let m = MoveObject::new(tag(), true, v, contents.clone()).unwrap();
    assert_eq!(m.id().bytes.to_vec(), (0..32).collect::<Vec<u8>>());
    assert_eq!(m.contents(), &contents);
    assert_eq!(m.version(), v);
    assert_eq!(m.type_(), &tag());
    assert!(m.has_public_transfer());
    assert!(MoveObject::new(tag(), true, v, vec![0; 31]).is_none());
    assert!(MoveObject::new(tag(), true, v, vec![0; 32]).is_some());
}

#[test]
fn object_clones_share_one_value() {
    let m = MoveObject::new(tag(), false, SequenceNumber::from_u64(4), vec![3; 32]).unwrap();
    let object = Object::new(ObjectInner {
        data: Data::Move(m),
        owner: Owner::Immutable,
        previous_transaction: TransactionDigest { bytes: [1; 32] },
        storage_rebate: 5,
    });
    let other = object.clone();
    assert!(Arc::ptr_eq(&object.inner, &other.inner));
    assert!(!object.is_package());
    let r = object.compute_object_reference(&|o: &Object| ObjectDigest {
        bytes: [o.version().value as u8; 32],
    });
    assert_eq!(
        r,
        ObjectRef(
            ObjectID { bytes: [3; 32] },
            SequenceNumber::from_u64(4),
            ObjectDigest { bytes: [4; 32] }
        )
    );
    assert_eq!(
        ObjectKey::from_ref(&r),
        ObjectKey(ObjectID { bytes: [3; 32] }, SequenceNumber::from_u64(4))
    );
    assert_eq!(InputObjectKind::ImmOrOwnedMoveObject(r).object_id(), ObjectID { bytes: [3; 32] });
}

#[test]
fn map_keeps_ids_apart() {
    let mut map: ObjectMap<usize> = ObjectMap::new();
    for i in 0..32 {
        let mut bytes = [0u8; 32];
        bytes[i] = 1;
        map.insert(ObjectID { bytes }, i);
    }
    for i in 0..32 {
        let mut bytes = [0u8; 32];
        bytes[i] = 1;
        assert_eq!(map.get(&ObjectID { bytes }), Some(&i));
    }
    assert_eq!(map.get(&ObjectID { bytes: [0; 32] }), None);
    map.insert(ObjectID { bytes: [0; 32] }, 100);
    map.insert(ObjectID { bytes: [0; 32] }, 101);
    assert_eq!(map.get(&ObjectID { bytes: [0; 32] }), Some(&101));
}

#[test]
fn clock_contents_are_id_and_time() {
    let object = clock_object_at(0x0102_0304_0506_0708).unwrap();
    let mut expected = vec![0u8; 31];
    expected.extend_from_slice(&[6, 8, 7, 6, 5, 4, 3, 2, 1]);
    assert_eq!(contents_of(&object), expected);
    assert_eq!(object.id(), ObjectID::from_single_byte(6));
    assert_eq!(object.version(), SequenceNumber::from_u64(1));
    assert_eq!(
        object.inner.owner,
        Owner::Shared { initial_shared_version: SequenceNumber::from_u64(1) }
    );
    assert_eq!(object.inner.previous_transaction, TransactionDigest { bytes: [0; 32] });
    assert_eq!(object.inner.storage_rebate, 0);
    match &object.inner.data {
        Data::Move(m) => {
            assert_eq!(m.type_(), &clock_type());
            assert!(!m.has_public_transfer());
        }
        Data::Package(_) => panic!("the clock is no package"),
    }
    assert_eq!(clock_type().module, "clock");
    assert_eq!(clock_type().name, "Clock");
    assert_eq!(clock_type().address, ObjectID::from_single_byte(2));
}

#[test]
fn clock_time_is_cut_to_its_low_bits() {
    let high = clock_object_for(Some((7u128 << 64) + 5)).unwrap();
    let low = clock_object_for(Some(5)).unwrap();
    assert_eq!(high, low);
    assert_eq!(clock_object_for(None), Err(ClockError::BeforeEpoch));
}

fn shown(object: &Object) -> u64 {
    let mut time = [0u8; 8];
    time.copy_from_slice(&contents_of(object)[32..]);
    u64::from_le_bytes(time)
}

#[test]
fn clock_shows_the_whole_milliseconds_of_a_reading() {
    let object = clock_object_at_reading(Some(1_234_567_890)).unwrap();
    let mut expected = vec![0u8; 31];
    expected.extend_from_slice(&[6, 0xd2, 4, 0, 0, 0, 0, 0, 0]);
    assert_eq!(contents_of(&object), expected);
    assert_eq!(clock_object_at_reading(None), Err(ClockError::BeforeEpoch));
}

#[test]
fn later_readings_show_no_earlier_time() {
    let at = |nanos: u128| clock_object_at_reading(Some(nanos)).unwrap();
    assert_eq!(at(5_000_000), at(5_999_999));
    assert_eq!(shown(&at(5_999_999)), 5);
    assert_eq!(shown(&at(6_000_000)), 6);
    // The time wraps where its milliseconds no longer fit.
    assert_eq!(shown(&at(((1u128 << 64) - 1) * 1_000_000)), u64::MAX);
    assert_eq!(shown(&at((1u128 << 64) * 1_000_000)), 0);
}

#[test]
fn latest_clock_shows_the_present() {
    let before = millis_of(nanos_since_epoch()).unwrap();
    let time = shown(&latest_clock_object().unwrap()) as u128;
    let after = millis_of(nanos_since_epoch()).unwrap();
    assert!(before <= time && time <= after);
    // 1 January 2020.
    assert!(before > 1_577_836_800_000);
}

#[test]
fn readings_are_nanoseconds_since_the_epoch() {
    let before = UNIX_EPOCH.elapsed().unwrap().as_nanos();
    let reading = nanos_since_epoch().unwrap();
    let after = UNIX_EPOCH.elapsed().unwrap().as_nanos();
    assert!(before <= reading && reading <= after);
}

#[test]
fn millis_are_the_whole_ones() {
    assert_eq!(millis_of(Some(2_003_999_999)), Some(2003));
    assert_eq!(millis_of(Some(999_999)), Some(0));
    assert_eq!(millis_of(Some(1_000_000)), Some(1));
    assert_eq!(millis_of(Some(0)), Some(0));
    assert_eq!(millis_of(None), None);
}
