//! Type keys: the identity under which constructors, scopes and mappings are filed.

use core::any::TypeId;
use vstd::prelude::*;
use vstd::std_specs::cmp::PartialEqSpecImpl;

verus! {

/// `core::any::TypeId`, carried as an opaque value: nothing is known of it
/// but whether two of them are equal.
#[verifier::external_type_specification]
#[verifier::external_body]
pub struct ExTypeId(TypeId);

/// The key of a type: its identifier and a name for diagnostics.
///
/// Two keys are equal when their identifiers are; the name takes no part in
/// `==` or in hashing.
#[derive(Clone, Copy, Debug, PartialOrd, Ord)]
pub struct TypeInfo {
    pub id: TypeId,
    pub name: &'static str,
}

/// Calls `TypeId::of::<T>()`. Nothing is claimed of the identifier that comes
/// back: the calls of this function are what "an identifier of `T`" means.
#[verifier::external_body]
fn type_id_raw<T: ?Sized + 'static>() -> TypeId {
    TypeId::of::<T>()
}

/// Calls `TypeId::of::<T>()`, which gives one and the same identifier for a
/// type however often it is asked: what comes back is an identifier of `T`,
/// and `T` has no other.
#[verifier::external_body]
fn type_id_of<T: ?Sized + 'static>() -> (r: TypeId)
    ensures
        call_ensures(type_id_raw::<T>, (), r),
        forall|other: TypeId| #[trigger] call_ensures(type_id_raw::<T>, (), other) ==> other == r,
{
    TypeId::of::<T>()
}

/// Whether `id` is the identifier of `T`: `TypeId::of::<T>()` gives it and
/// nothing else.
pub closed spec fn is_id_of<T: ?Sized + 'static>(id: TypeId) -> bool {
    &&& call_ensures(type_id_raw::<T>, (), id)
    &&& forall|other: TypeId| #[trigger] call_ensures(type_id_raw::<T>, (), other) ==> other == id
}

/// A type has one identifier.
pub proof fn lemma_one_identifier<T: ?Sized + 'static>(a: TypeId, b: TypeId)
    requires
        is_id_of::<T>(a),
        is_id_of::<T>(b),
    ensures
        a == b,
{
}

/// Compares two identifiers with `TypeId`'s own `==`, which holds exactly
/// when both stand for one type, that is, when the two values are the same.
#[verifier::external_body]
fn same_type_id(a: &TypeId, b: &TypeId) -> (r: bool)
    ensures
        r == (*a == *b),
{
    a == b
}

impl PartialEq for TypeInfo {
    fn eq(&self, other: &Self) -> (r: bool) {
        same_type_id(&self.id, &other.id)
    }
}

impl Eq for TypeInfo {

}

impl PartialEqSpecImpl for TypeInfo {
    open spec fn obeys_eq_spec() -> bool {
        true
    }

    open spec fn eq_spec(&self, other: &Self) -> bool {
        self.id == other.id
    }
}

impl core::hash::Hash for TypeInfo {
    /// Feeds the identifier, and nothing else, to the hasher by `TypeId`'s
    /// own `hash`, so that equal keys hash alike.
    #[verifier::external_body]
    fn hash<H: core::hash::Hasher>(&self, state: &mut H) {
        self.id.hash(state)
    }
}

impl TypeInfo {
    /// Whether the key carries the identifier of `TType`, which is the only
    /// one that `TType` has.
    pub open spec fn is_key_of<TType: ?Sized + 'static>(self) -> bool {
        &&& is_id_of::<TType>(self.id)
        &&& forall|id: TypeId| #[trigger] is_id_of::<TType>(id) ==> id == self.id
    }

    /// The key of `TType`, with an empty name.
    pub fn from_type<TType: ?Sized + 'static>() -> (r: Self)
        ensures
            r.is_key_of::<TType>(),
            r.name@.len() == 0,
    {
        let r = Self { id: type_id_of::<TType>(), name: "" };
        proof {
            reveal_strlit("");
        }
        r
    }

    /// The same key under the name `name`.
    pub fn named(self, name: &'static str) -> (r: Self)
        ensures
            r.id == self.id,
            r.name == name,
    {
        Self { id: self.id, name }
    }

    /// Whether both keys stand for one type.
    pub open spec fn same(self, other: Self) -> bool {
        self.id == other.id
    }
}

/// Two keys of one type stand for one type: they carry one identifier.
pub proof fn lemma_keys_of_one_type_agree<TType: ?Sized + 'static>(a: TypeInfo, b: TypeInfo)
    requires
        a.is_key_of::<TType>(),
        b.is_key_of::<TType>(),
    ensures
        a.same(b),
{
}

/// Gives every sized `'static` type its key.
pub trait TypeInfoSource: 'static {
    /// The key of the type, with an empty name.
    fn type_info() -> (r: TypeInfo)
        ensures
            r.is_key_of::<Self>(),
            r.name@.len() == 0,
    ;
}

impl<T: 'static> TypeInfoSource for T {
    fn type_info() -> (r: TypeInfo) {
        TypeInfo::from_type::<T>()
    }
}

} // verus!
