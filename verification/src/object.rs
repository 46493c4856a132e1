//! Objects, their owners and the references to them.
use crate::base_types::{ObjectID, SequenceNumber, SuiAddress, TransactionDigest, VersionNumber};
use std::sync::Arc;
use vstd::prelude::*;

verus! {

broadcast use vstd::array::group_array_axioms;

/// The type of a Move value: `address::module::name`, with the type arguments
/// in their canonical spelling.
#[derive(Debug, PartialEq, Eq)]
pub struct StructTag {
    pub address: ObjectID,
    pub module: String,
    pub name: String,
    pub type_params: Vec<String>,
}

/// A Move value that is stored as an object. The first 32 bytes of its contents
/// are its id.
#[derive(Debug, PartialEq, Eq)]
pub struct MoveObject {
    id: ObjectID,
    type_: StructTag,
    has_public_transfer: bool,
    version: SequenceNumber,
    contents: Vec<u8>,
}

/// A published package.
#[derive(Debug, PartialEq, Eq)]
pub struct MovePackage {
    pub id: ObjectID,
    pub version: SequenceNumber,
    pub contents: Vec<u8>,
}

/// What an object holds.
#[derive(Debug, PartialEq, Eq)]
pub enum Data {
    Move(MoveObject),
    Package(MovePackage),
}

/// Who may use an object.
#[derive(Clone, Copy, Debug)]
pub enum Owner {
    /// Owned by an account.
    AddressOwner(SuiAddress),
    /// Owned by another object, whose id has the bytes of the address.
    ObjectOwner(SuiAddress),
    /// Shared since the given version.
    Shared { initial_shared_version: SequenceNumber },
    /// Never changed again.
    Immutable,
    /// Owned by an account, and sequenced by consensus.
    ConsensusAddressOwner { start_version: SequenceNumber, owner: SuiAddress },
}

/// The parts of an object.
#[derive(Debug, PartialEq, Eq)]
pub struct ObjectInner {
    pub data: Data,
    pub owner: Owner,
    pub previous_transaction: TransactionDigest,
    pub storage_rebate: u64,
}

/// An object, shared between its holders.
#[derive(Debug, PartialEq, Eq)]
pub struct Object {
    pub inner: Arc<ObjectInner>,
}

/// The digest of an object: its hash.
#[derive(Clone, Copy, Debug, PartialEq, Eq)]
pub struct ObjectDigest {
    pub bytes: [u8; 32],
}

/// A reference to one version of an object: id, version and digest.
#[derive(Clone, Copy, Debug, PartialEq, Eq)]
pub struct ObjectRef(pub ObjectID, pub SequenceNumber, pub ObjectDigest);

/// The key of one version of an object.
#[derive(Clone, Copy, Debug, PartialEq, Eq)]
pub struct ObjectKey(pub ObjectID, pub VersionNumber);

/// The latest state of an object: the object itself, or what is left of it.
#[derive(Debug, PartialEq, Eq)]
pub enum ObjectOrTombstone {
    Object(Object),
    Tombstone(ObjectRef),
}

/// An object that is a package.
#[derive(Debug, PartialEq, Eq)]
pub struct PackageObject {
    pub package_object: Object,
}

/// Whether `digest` is what `hash` may give for an object.
pub open spec fn is_digest<H: Fn(&Object) -> ObjectDigest>(
    hash: H,
    object: Object,
    digest: ObjectDigest,
) -> bool {
    call_ensures(hash, (&object,), digest)
}

/// Whether every object can be hashed.
pub open spec fn hashes_every_object<H: Fn(&Object) -> ObjectDigest>(hash: H) -> bool {
    forall|object: Object| call_requires(hash, (&object,))
}

/// `Arc::clone`. A further pointer to the same value.
#[verifier::external_body]
fn share(inner: &Arc<ObjectInner>) -> (r: Arc<ObjectInner>)
    ensures
        r == *inner,
{
    Arc::clone(inner)
}

impl PartialEq for Owner {
    fn eq(&self, other: &Self) -> (r: bool) {
        match (*self, *other) {
            (Owner::AddressOwner(a), Owner::AddressOwner(b)) => a == b,
            (Owner::ObjectOwner(a), Owner::ObjectOwner(b)) => a == b,
            (
                Owner::Shared { initial_shared_version: a },
                Owner::Shared { initial_shared_version: b },
            ) => a == b,
            (Owner::Immutable, Owner::Immutable) => true,
            (
                Owner::ConsensusAddressOwner { start_version: a, owner: c },
                Owner::ConsensusAddressOwner { start_version: b, owner: d },
            ) => a == b && c == d,
            _ => false,
        }
    }
}

impl vstd::std_specs::cmp::PartialEqSpecImpl for Owner {
    open spec fn obeys_eq_spec() -> bool {
        true
    }

    open spec fn eq_spec(&self, other: &Self) -> bool {
        *self == *other
    }
}

impl Eq for Owner {

}

impl StructTag {
    /// Whether two tags spell the same type.
    pub open spec fn same_type(&self, other: StructTag) -> bool {
        &&& self.address == other.address
        &&& self.module@ == other.module@
        &&& self.name@ == other.name@
        &&& self.type_params@.map_values(|param: String| param@)
            == other.type_params@.map_values(|param: String| param@)
    }
}

impl MoveObject {
    #[verifier::type_invariant]
    spec fn wf(self) -> bool {
        &&& self.contents@.len() >= 32
        &&& self.contents@.take(32) == self.id.bytes@
    }

    pub closed spec fn spec_id(&self) -> ObjectID {
        self.id
    }

    pub closed spec fn spec_type(&self) -> StructTag {
        self.type_
    }

    pub closed spec fn spec_has_public_transfer(&self) -> bool {
        self.has_public_transfer
    }

    pub closed spec fn spec_version(&self) -> SequenceNumber {
        self.version
    }

    pub closed spec fn spec_contents(&self) -> Seq<u8> {
        self.contents@
    }

    /// A Move object with the given contents; `None` if they are too short to
    /// hold an id.
    pub fn new(
        type_: StructTag,
        has_public_transfer: bool,
        version: SequenceNumber,
        contents: Vec<u8>,
    ) -> (r: Option<MoveObject>)
        ensures
            r is Some <==> contents@.len() >= 32,
            r matches Some(m) ==> {
                &&& m.spec_id().bytes@ == contents@.take(32)
                &&& m.spec_type() == type_
                &&& m.spec_has_public_transfer() == has_public_transfer
                &&& m.spec_version() == version
                &&& m.spec_contents() == contents@
            },
    {
        if contents.len() < 32 {
            return None;
        }
        let mut bytes: [u8; 32] = [0; 32];
        let mut i: usize = 0;
        while i < 32
            invariant
                i <= 32,
                contents@.len() >= 32,
                forall|j: int| 0 <= j < i ==> bytes@[j] == contents@[j],
            decreases 32 - i,
        {
            bytes[i] = contents[i];
            i = i + 1;
        }
        assert(contents@.take(32) =~= bytes@);
        Some(MoveObject { id: ObjectID { bytes }, type_, has_public_transfer, version, contents })
    }

    /// The id of the object.
    #[verifier::when_used_as_spec(spec_id)]
    pub fn id(&self) -> (r: ObjectID)
        ensures
            r == self.spec_id(),
            self.spec_contents().len() >= 32,
            r.bytes@ == self.spec_contents().take(32),
    {
        proof {
            use_type_invariant(self);
        }
        self.id
    }

    /// The version of the object.
    #[verifier::when_used_as_spec(spec_version)]
    pub fn version(&self) -> (r: SequenceNumber)
        ensures
            r == self.spec_version(),
    {
        self.version
    }

    /// The type of the value.
    pub fn type_(&self) -> (r: &StructTag)
        ensures
            *r == self.spec_type(),
    {
        &self.type_
    }

    /// Whether anyone may transfer the object.
    pub fn has_public_transfer(&self) -> (r: bool)
        ensures
            r == self.spec_has_public_transfer(),
    {
        self.has_public_transfer
    }

    /// The serialized value.
    pub fn contents(&self) -> (r: &Vec<u8>)
        ensures
            r@ == self.spec_contents(),
    {
        &self.contents
    }
}

impl Clone for Object {
    fn clone(&self) -> (r: Self)
        ensures
            r == *self,
    {
        Object { inner: share(&self.inner) }
    }
}

impl Object {
    /// The object made of the given parts.
    pub fn new(inner: ObjectInner) -> (r: Object)
        ensures
            *r.inner == inner,
    {
        Object { inner: Arc::new(inner) }
    }

    pub open spec fn spec_id(&self) -> ObjectID {
        match self.inner.data {
            Data::Move(m) => m.spec_id(),
            Data::Package(p) => p.id,
        }
    }

    pub open spec fn spec_version(&self) -> SequenceNumber {
        match self.inner.data {
            Data::Move(m) => m.spec_version(),
            Data::Package(p) => p.version,
        }
    }

    /// The serialized value or package.
    pub open spec fn contents(&self) -> Seq<u8> {
        match self.inner.data {
            Data::Move(m) => m.spec_contents(),
            Data::Package(p) => p.contents@,
        }
    }

    /// Whether two objects agree in everything but their contents.
    pub open spec fn same_but_for_contents(&self, other: Object) -> bool {
        &&& self.inner.owner == other.inner.owner
        &&& self.inner.previous_transaction == other.inner.previous_transaction
        &&& self.inner.storage_rebate == other.inner.storage_rebate
        &&& self.spec_id() == other.spec_id()
        &&& self.spec_version() == other.spec_version()
        &&& match (self.inner.data, other.inner.data) {
            (Data::Move(a), Data::Move(b)) => {
                &&& a.spec_type().same_type(b.spec_type())
                &&& a.spec_has_public_transfer() == b.spec_has_public_transfer()
            },
            (Data::Package(_), Data::Package(_)) => true,
            _ => false,
        }
    }

    /// Whether two objects hold the same, part by part.
    pub open spec fn same_value(&self, other: Object) -> bool {
        self.same_but_for_contents(other) && self.contents() == other.contents()
    }

    pub open spec fn spec_is_package(&self) -> bool {
        self.inner.data is Package
    }

    /// Whether a reference is one to this object: its id, its version and the
    /// digest that `hash` gives for it.
    pub open spec fn is_referred_by<H: Fn(&Object) -> ObjectDigest>(
        &self,
        hash: H,
        object_ref: ObjectRef,
    ) -> bool {
        &&& object_ref.0 == self.spec_id()
        &&& object_ref.1 == self.spec_version()
        &&& is_digest(hash, *self, object_ref.2)
    }

    /// The key of this version of the object.
    pub open spec fn spec_key(&self) -> ObjectKey {
        ObjectKey(self.spec_id(), self.spec_version())
    }

    /// The id of the object.
    #[verifier::when_used_as_spec(spec_id)]
    pub fn id(&self) -> (r: ObjectID)
        ensures
            r == self.spec_id(),
    {
        match &self.inner.data {
            Data::Move(m) => m.id(),
            Data::Package(p) => p.id,
        }
    }

    /// The version of the object.
    #[verifier::when_used_as_spec(spec_version)]
    pub fn version(&self) -> (r: SequenceNumber)
        ensures
            r == self.spec_version(),
    {
        match &self.inner.data {
            Data::Move(m) => m.version(),
            Data::Package(p) => p.version,
        }
    }

    /// Whether the object is a package.
    #[verifier::when_used_as_spec(spec_is_package)]
    pub fn is_package(&self) -> (r: bool)
        ensures
            r == self.spec_is_package(),
    {
        match &self.inner.data {
            Data::Move(_) => false,
            Data::Package(_) => true,
        }
    }

    /// The key of this version of the object.
    #[verifier::when_used_as_spec(spec_key)]
    pub fn key(&self) -> (r: ObjectKey)
        ensures
            r == self.spec_key(),
    {
        ObjectKey(self.id(), self.version())
    }

    /// The reference to this object, with the digest that `hash` gives for it.
    pub fn compute_object_reference<H: Fn(&Object) -> ObjectDigest>(&self, hash: &H) -> (r:
        ObjectRef)
        requires
            call_requires(*hash, (self,)),
        ensures
            self.is_referred_by(*hash, r),
    {
        ObjectRef(self.id(), self.version(), hash(self))
    }
}

impl ObjectKey {
    /// The key of the version that a reference names.
    pub open spec fn of_ref(object_ref: ObjectRef) -> ObjectKey {
        ObjectKey(object_ref.0, object_ref.1)
    }

    /// The key of the version that a reference names.
    pub fn from_ref(object_ref: &ObjectRef) -> (r: ObjectKey)
        ensures
            r == ObjectKey::of_ref(*object_ref),
    {
        ObjectKey(object_ref.0, object_ref.1)
    }
}

impl PackageObject {
    /// The package that an object is. An object that holds a Move value is none.
    pub fn new(package_object: Object) -> (r: PackageObject)
        requires
            package_object.is_package(),
        ensures
            r.package_object == package_object,
    {
        PackageObject { package_object }
    }
}

} // verus!
