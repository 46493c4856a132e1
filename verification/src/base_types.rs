//! Identifiers and version numbers.
use vstd::prelude::*;

verus! {

broadcast use vstd::array::group_array_axioms;

/// The identity of an object in the store.
#[derive(Clone, Copy, Debug, Hash)]
pub struct ObjectID {
    pub bytes: [u8; 32],
}

/// An account address.
#[derive(Clone, Copy, Debug)]
pub struct SuiAddress {
    pub bytes: [u8; 32],
}

/// The digest of a transaction.
#[derive(Clone, Copy, Debug, PartialEq, Eq)]
pub struct TransactionDigest {
    pub bytes: [u8; 32],
}

/// The version of an object.
#[derive(Clone, Copy, Debug, PartialEq, Eq, Structural, Hash)]
pub struct SequenceNumber {
    pub value: u64,
}

/// A version number, as the storage traits call it.
pub type VersionNumber = SequenceNumber;

/// The number of an epoch.
pub type EpochId = u64;

/// The sequence number of a checkpoint.
pub type CheckpointSequenceNumber = u64;

/// The version of an object at its creation.
pub const OBJECT_START_VERSION: u64 = 1;

/// The 32 bytes that spell the number `last`, most significant byte first.
pub open spec fn small_number_bytes(last: u8) -> Seq<u8> {
    Seq::new(32, |i: int| if i == 31 { last } else { 0 })
}

/// Whether two arrays hold the same bytes.
pub(crate) fn same_bytes(a: &[u8; 32], b: &[u8; 32]) -> (r: bool)
    ensures
        r == (*a == *b),
{
    let mut i: usize = 0;
    while i < 32
        invariant
            i <= 32,
            forall|j: int| 0 <= j < i ==> a@[j] == b@[j],
        decreases 32 - i,
    {
        if a[i] != b[i] {
            return false;
        }
        i = i + 1;
    }
    assert(*a =~= *b);
    true
}

impl SequenceNumber {
    /// The version with the given number.
    pub fn from_u64(value: u64) -> (r: SequenceNumber)
        ensures
            r.value == value,
    {
        SequenceNumber { value }
    }
}

impl TransactionDigest {
    /// The digest that stands for the parent of an object that has no parent
    /// transaction: all zeros.
    pub fn genesis_marker() -> (r: TransactionDigest)
        ensures
            r.is_genesis_marker(),
    {
        let id: ObjectID = ObjectID::from_single_byte(0);
        TransactionDigest { bytes: id.bytes }
    }

    /// Whether every byte is zero.
    pub open spec fn is_genesis_marker(self) -> bool {
        self.bytes@ == small_number_bytes(0)
    }
}

impl PartialEq for ObjectID {
    fn eq(&self, other: &Self) -> (r: bool) {
        same_bytes(&self.bytes, &other.bytes)
    }
}

impl vstd::std_specs::cmp::PartialEqSpecImpl for ObjectID {
    open spec fn obeys_eq_spec() -> bool {
        true
    }

    open spec fn eq_spec(&self, other: &Self) -> bool {
        *self == *other
    }
}

impl Eq for ObjectID {

}

impl PartialEq for SuiAddress {
    fn eq(&self, other: &Self) -> (r: bool) {
        same_bytes(&self.bytes, &other.bytes)
    }
}

impl vstd::std_specs::cmp::PartialEqSpecImpl for SuiAddress {
    open spec fn obeys_eq_spec() -> bool {
        true
    }

    open spec fn eq_spec(&self, other: &Self) -> bool {
        *self == *other
    }
}

impl Eq for SuiAddress {

}

impl ObjectID {
    /// Whether this is the id of the clock object, `0x6`.
    pub open spec fn is_clock(self) -> bool {
        self.bytes@ == small_number_bytes(6)
    }

    /// The id that spells a small number.
    pub fn from_single_byte(last: u8) -> (r: ObjectID)
        ensures
            r.bytes@ == small_number_bytes(last),
    {
        let bytes: [u8; 32] = [
            0, 0, 0, 0, 0, 0, 0, 0, 0, 0, 0, 0, 0, 0, 0, 0,
            0, 0, 0, 0, 0, 0, 0, 0, 0, 0, 0, 0, 0, 0, 0, last,
        ];
        assert(bytes@ =~= small_number_bytes(last));
        ObjectID { bytes }
    }

    /// The address with the bytes of this id.
    pub fn to_address(&self) -> (r: SuiAddress)
        ensures
            r == self.address(),
    {
        SuiAddress { bytes: self.bytes }
    }

    /// The address with the bytes of this id.
    pub open spec fn address(self) -> SuiAddress {
        SuiAddress { bytes: self.bytes }
    }
}

} // verus!
