//! The clock object, made from the system clock.
use crate::base_types::{
    small_number_bytes, ObjectID, SequenceNumber, TransactionDigest, OBJECT_START_VERSION,
};
use crate::object::{Data, MoveObject, Object, ObjectInner, Owner, StructTag};
use crate::transaction::{InputObjectKind, ObjectReadResult, ObjectReadResultKind};
use std::time::{Duration, SystemTime, SystemTimeError};
use vstd::prelude::*;

verus! {

broadcast use vstd::array::group_array_axioms;

/// The error of the BCS serializer.
#[verifier::external_type_specification]
#[verifier::external_body]
pub struct ExBcsError(bcs::Error);

/// A moment of the system clock.
#[verifier::external_type_specification]
#[verifier::external_body]
pub struct ExSystemTime(SystemTime);

/// What is told of a moment that precedes another.
#[verifier::external_type_specification]
#[verifier::external_body]
pub struct ExSystemTimeError(SystemTimeError);

/// Why there is no clock object.
#[derive(Clone, Copy, Debug, PartialEq, Eq, Structural)]
pub enum ClockError {
    /// The system clock stands before the Unix epoch.
    BeforeEpoch,
    /// The contents could not be serialized.
    Encoding,
}

/// The eight bytes of a number, least significant first.
pub open spec fn le_bytes(n: u64) -> Seq<u8> {
    seq![
        (n % 0x100) as u8,
        (n / 0x100 % 0x100) as u8,
        (n / 0x1_0000 % 0x100) as u8,
        (n / 0x100_0000 % 0x100) as u8,
        (n / 0x1_0000_0000 % 0x100) as u8,
        (n / 0x100_0000_0000 % 0x100) as u8,
        (n / 0x1_0000_0000_0000 % 0x100) as u8,
        (n / 0x100_0000_0000_0000 % 0x100) as u8,
    ]
}

/// The number that eight bytes spell, least significant first.
pub open spec fn from_le_bytes(s: Seq<u8>) -> int {
    s[0] + 0x100 * s[1] + 0x1_0000 * s[2] + 0x100_0000 * s[3] + 0x1_0000_0000 * s[4]
        + 0x100_0000_0000 * s[5] + 0x1_0000_0000_0000 * s[6] + 0x100_0000_0000_0000 * s[7]
}

/// Whether a tag is `0x2::clock::Clock`.
pub open spec fn is_clock_type(tag: StructTag) -> bool {
    &&& tag.address.bytes@ == small_number_bytes(2)
    &&& tag.module@ == "clock"@
    &&& tag.name@ == "Clock"@
    &&& tag.type_params@.len() == 0
}

/// Whether an object is the clock object that shows the given time: a shared
/// object in its first version, whose contents are the id of the clock and the
/// time.
pub open spec fn is_clock_object(object: Object, timestamp_ms: u64) -> bool {
    &&& object.inner.owner matches Owner::Shared { initial_shared_version }
    &&& initial_shared_version.value == OBJECT_START_VERSION
    &&& object.inner.data matches Data::Move(m)
    &&& m.spec_id().is_clock()
    &&& is_clock_type(m.spec_type())
    &&& !m.spec_has_public_transfer()
    &&& m.spec_version().value == OBJECT_START_VERSION
    &&& m.spec_contents() == small_number_bytes(6) + le_bytes(timestamp_ms)
    &&& object.inner.previous_transaction.is_genesis_marker()
    &&& object.inner.storage_rebate == 0
}

/// Whether an input names the clock as a shared object that may be changed.
pub open spec fn is_clock_input(kind: InputObjectKind) -> bool {
    &&& kind matches InputObjectKind::SharedMoveObject { id, initial_shared_version, mutable }
    &&& id.is_clock()
    &&& initial_shared_version.value == OBJECT_START_VERSION
    &&& mutable
}

/// Whether a read result is the clock object that shows the given time, named
/// as a shared object that may be changed.
pub open spec fn is_clock_read(result: ObjectReadResult, timestamp_ms: u64) -> bool {
    &&& is_clock_input(result.input_object_kind)
    &&& result.object matches ObjectReadResultKind::Object(object)
    &&& is_clock_object(object, timestamp_ms)
}

/// The low 64 bits of a number of milliseconds.
pub open spec fn low_64_bits(millis: u128) -> u64 {
    (millis % 0x1_0000_0000_0000_0000) as u64
}

/// The whole milliseconds in a number of nanoseconds.
pub open spec fn whole_millis(nanos: u128) -> u128 {
    nanos / 1_000_000
}

/// The time that the clock object shows for a reading of so many nanoseconds
/// since the epoch: the low 64 bits of its whole milliseconds.
pub open spec fn shown_time(nanos: u128) -> u64 {
    low_64_bits(whole_millis(nanos))
}

/// Whether `nanos` is a reading of the system clock: the nanoseconds between the
/// epoch and a moment that was given as the present one, or `None` for a moment
/// before the epoch. Moments are opaque, so which numbers are readings is not
/// known.
pub closed spec fn is_reading(nanos: Option<u128>) -> bool {
    exists|now: SystemTime, since: Result<Duration, SystemTimeError>|
        #![trigger call_ensures(duration_since_epoch, (now,), since)]
        {
            &&& call_ensures(system_time_now, (), now)
            &&& call_ensures(duration_since_epoch, (now,), since)
            &&& match since {
                Ok(duration) => nanos matches Some(nanos) && call_ensures(
                    duration_as_nanos,
                    (&duration,),
                    nanos,
                ),
                Err(_) => nanos is None,
            }
        }
}

/// Whether `r` is the clock object for a reading of the system clock, or the
/// error where there is none.
pub open spec fn is_clock_for(nanos: Option<u128>, r: Result<Object, ClockError>) -> bool {
    match nanos {
        Some(nanos) => r matches Ok(object) && is_clock_object(object, shown_time(nanos)),
        None => r == Err::<Object, ClockError>(ClockError::BeforeEpoch),
    }
}

/// Whether `result` is the override of the clock for a reading of the system
/// clock: a read of the clock object, or nothing before the epoch.
pub open spec fn is_clock_override(nanos: Option<u128>, result: Option<ObjectReadResult>) -> bool {
    match nanos {
        Some(nanos) => result matches Some(read) && is_clock_read(read, shown_time(nanos)),
        None => result is None,
    }
}

/// `bcs::to_bytes`, on the pair of a 32 byte array and a number: the fields of a
/// clock, which BCS writes alike in a tuple and in a struct. The serializer
/// writes the elements of arrays and tuples one after the other, without a
/// length, and a number with its least significant byte first; it refuses
/// nothing in such a pair.
#[verifier::external_body]
fn bcs_to_bytes(id: &[u8; 32], timestamp_ms: u64) -> (r: Result<Vec<u8>, bcs::Error>)
    ensures
        r is Ok,
        r->Ok_0@ == id@ + le_bytes(timestamp_ms),
{
    bcs::to_bytes(&(*id, timestamp_ms))
}

/// `SystemTime::now`. Nothing is known of the moment.
#[verifier::external_body]
fn system_time_now() -> (r: SystemTime) {
    SystemTime::now()
}

/// `SystemTime::duration_since`, from the Unix epoch. Moments and durations are
/// opaque, so neither which duration belongs to a moment is said nor which
/// moments have one.
#[verifier::external_body]
fn duration_since_epoch(now: SystemTime) -> (r: Result<Duration, SystemTimeError>) {
    now.duration_since(std::time::UNIX_EPOCH)
}

/// `Duration::as_nanos`, the total number of nanoseconds. A duration holds less
/// than 2^64 seconds and a part of a second. Durations are opaque, so which
/// number belongs to which is not said.
#[verifier::external_body]
fn duration_as_nanos(duration: &Duration) -> (r: u128)
    ensures
        r < 0x1_0000_0000_0000_0000 * 1_000_000_000,
{
    duration.as_nanos()
}

/// A reading of the system clock: the nanoseconds since the Unix epoch, or `None`
/// if the clock stands before it.
pub fn nanos_since_epoch() -> (r: Option<u128>)
    ensures
        is_reading(r),
        r matches Some(nanos) ==> nanos < 0x1_0000_0000_0000_0000 * 1_000_000_000,
{
    let now: SystemTime = system_time_now();
    let since: Result<Duration, SystemTimeError> = duration_since_epoch(now);
    assert(call_ensures(duration_since_epoch, (now,), since));
    match since {
        Ok(duration) => Some(duration_as_nanos(&duration)),
        Err(_) => None,
    }
}

/// A reading is the whole time since the epoch, in nanoseconds, of the moment
/// that was asked for; there is none exactly where the standard library tells of
/// no time since the epoch.
proof fn law_reading_is_the_time_since_the_epoch(nanos: Option<u128>)
    requires
        call_ensures(nanos_since_epoch, (), nanos),
    ensures
        exists|now: SystemTime, since: Result<Duration, SystemTimeError>|
            #![trigger call_ensures(duration_since_epoch, (now,), since)]
            {
                &&& call_ensures(system_time_now, (), now)
                &&& call_ensures(duration_since_epoch, (now,), since)
                &&& nanos is Some <==> since is Ok
                &&& since matches Ok(duration) ==> call_ensures(
                    duration_as_nanos,
                    (&duration,),
                    nanos->0,
                )
            },
{
}

/// The whole milliseconds of a reading of the system clock.
pub fn millis_of(nanos: Option<u128>) -> (r: Option<u128>)
    ensures
        r == match nanos {
            Some(nanos) => Some(whole_millis(nanos)),
            None => None,
        },
{
    match nanos {
        Some(nanos) => Some(nanos / 1_000_000),
        None => None,
    }
}

/// The type of the clock object.
pub fn clock_type() -> (r: StructTag)
    ensures
        is_clock_type(r),
{
    StructTag {
        address: ObjectID::from_single_byte(2),
        module: "clock".to_string(),
        name: "Clock".to_string(),
        type_params: Vec::new(),
    }
}

/// The id of the clock object, `0x6`.
pub fn sui_clock_object_id() -> (r: ObjectID)
    ensures
        r.is_clock(),
{
    ObjectID::from_single_byte(6)
}

/// Whether an id is that of the clock object.
pub fn is_clock_id(id: &ObjectID) -> (r: bool)
    ensures
        r == id.is_clock(),
{
    let clock_id: ObjectID = sui_clock_object_id();
    assert(id.is_clock() ==> id.bytes =~= clock_id.bytes);
    *id == clock_id
}

/// The clock object that shows the given time.
pub fn clock_object_at(timestamp_ms: u64) -> (r: Result<Object, ClockError>)
    ensures
        r matches Ok(object) && is_clock_object(object, timestamp_ms),
{
    let id: ObjectID = sui_clock_object_id();
    let contents: Vec<u8> = match bcs_to_bytes(&id.bytes, timestamp_ms) {
        Ok(bytes) => bytes,
        Err(_) => {
            return Err(ClockError::Encoding);
        },
    };
    let version: SequenceNumber = SequenceNumber::from_u64(OBJECT_START_VERSION);
    match MoveObject::new(clock_type(), false, version, contents) {
        Some(m) => {
            assert(m.spec_id().bytes@ =~= small_number_bytes(6));
            Ok(
                Object::new(
                    ObjectInner {
                        owner: Owner::Shared { initial_shared_version: version },
                        data: Data::Move(m),
                        previous_transaction: TransactionDigest::genesis_marker(),
                        storage_rebate: 0,
                    },
                ),
            )
        },
        None => Err(ClockError::Encoding),
    }
}

/// The clock object for the milliseconds since the epoch.
pub fn clock_object_for(millis: Option<u128>) -> (r: Result<Object, ClockError>)
    ensures
        match millis {
            Some(millis) => r matches Ok(object) && is_clock_object(object, low_64_bits(millis)),
            None => r == Err::<Object, ClockError>(ClockError::BeforeEpoch),
        },
{
    match millis {
        Some(millis) => clock_object_at((millis % 0x1_0000_0000_0000_0000) as u64),
        None => Err(ClockError::BeforeEpoch),
    }
}

/// The clock object for a reading of the system clock.
pub fn clock_object_at_reading(nanos: Option<u128>) -> (r: Result<Object, ClockError>)
    ensures
        is_clock_for(nanos, r),
{
    clock_object_for(millis_of(nanos))
}

/// The clock object that shows the time of the system clock.
pub fn latest_clock_object() -> (r: Result<Object, ClockError>)
    ensures
        exists|nanos: Option<u128>| #[trigger] is_reading(nanos) && is_clock_for(nanos, r),
{
    clock_object_at_reading(nanos_since_epoch())
}

/// The clock object as a read result: a shared object that may be changed.
pub fn clock_read(clock: Result<Object, ClockError>) -> (r: Option<ObjectReadResult>)
    ensures
        match clock {
            Ok(object) => {
                &&& r matches Some(result)
                &&& is_clock_input(result.input_object_kind)
                &&& result.object == ObjectReadResultKind::Object(object)
            },
            Err(_) => r is None,
        },
{
    match clock {
        Ok(object) => Some(
            ObjectReadResult {
                input_object_kind: InputObjectKind::SharedMoveObject {
                    id: sui_clock_object_id(),
                    initial_shared_version: SequenceNumber::from_u64(OBJECT_START_VERSION),
                    mutable: true,
                },
                object: ObjectReadResultKind::Object(object),
            },
        ),
        Err(_) => None,
    }
}

/// The time can be read back from its bytes.
pub proof fn lemma_le_bytes_read_back(n: u64)
    ensures
        from_le_bytes(le_bytes(n)) == n,
{
    let q1: int = n as int / 0x100;
    let q2: int = q1 / 0x100;
    let q3: int = q2 / 0x100;
    let q4: int = q3 / 0x100;
    let q5: int = q4 / 0x100;
    let q6: int = q5 / 0x100;
    let q7: int = q6 / 0x100;
    assert(n as int / 0x1_0000 == q2);
    assert(n as int / 0x100_0000 == q3);
    assert(n as int / 0x1_0000_0000 == q4);
    assert(n as int / 0x100_0000_0000 == q5);
    assert(n as int / 0x1_0000_0000_0000 == q6);
    assert(n as int / 0x100_0000_0000_0000 == q7);
    let s = le_bytes(n);
    assert(s[0] == n as int % 0x100);
    assert(s[1] == q1 % 0x100);
    assert(s[2] == q2 % 0x100);
    assert(s[3] == q3 % 0x100);
    assert(s[4] == q4 % 0x100);
    assert(s[5] == q5 % 0x100);
    assert(s[6] == q6 % 0x100);
    assert(s[7] == q7 % 0x100);
    assert(q7 < 0x100);
}

} // verus!
