//! An owned value of any thread-safe `'static` type, carried with its key.

use super::type_info::{is_id_of, lemma_one_identifier, TypeInfo, TypeInfoSource};
use core::any::TypeId;
use core::any::Any;
use vstd::prelude::*;

verus! {

/// A `Box<dyn Any + Send + Sync>`: the payload of a [`SyncBoxedService`],
/// reached only through [`erase_sync`] and [`downcast_sync`].
#[verifier::external_body]
#[derive(Debug)]
pub struct SyncAnyBox {
    inner: Box<dyn Any + Send + Sync>,
}

/// The identifier of the type of the value that a box was made from: what
/// `Any::type_id` gives for what the box holds.
pub uninterp spec fn held_sync_id(payload: SyncAnyBox) -> TypeId;

/// Boxes `value` with `Box::new` and forgets its type. What the box holds
/// is a `T`, and is known by the identifier of `T` from then on.
#[verifier::external_body]
fn erase_sync<T: 'static + Send + Sync>(value: T) -> (r: SyncAnyBox)
    ensures
        is_id_of::<T>(held_sync_id(r)),
{
    SyncAnyBox { inner: Box::new(value) }
}

/// `Box<dyn Any + Send + Sync>::downcast::<T>`, unboxed. It gives the value
/// back exactly when what the box holds is known by the identifier of `T`,
/// and then the value that the box was made from; otherwise it gives the box
/// back as it was.
#[verifier::external_body]
fn downcast_sync<T: 'static + Send + Sync>(payload: SyncAnyBox) -> (r: Result<T, SyncAnyBox>)
    ensures
        (r is Ok) == is_id_of::<T>(held_sync_id(payload)),
        r matches Err(back) ==> back == payload,
        r matches Ok(value) ==> call_ensures(erase_sync::<T>, (value,), payload),
        forall|value: T| #[trigger] call_ensures(erase_sync::<T>, (value,), payload) ==> r is Ok && r->Ok_0 == value,
{
    match payload.inner.downcast::<T>() {
        Ok(value) => Ok(*value),
        Err(inner) => Err(SyncAnyBox { inner }),
    }
}

/// `<dyn Any>::downcast_ref::<T>` on what the box holds. It gives a
/// reference exactly when what the box holds is known by the identifier of
/// `T`, and then to the value that the box was made from.
#[verifier::external_body]
fn downcast_sync_ref<T: 'static + Send + Sync>(payload: &SyncAnyBox) -> (r: Option<&T>)
    ensures
        (r is Some) == is_id_of::<T>(held_sync_id(*payload)),
        r matches Some(value) ==> call_ensures(erase_sync::<T>, (*value,), *payload),
        forall|value: T| #[trigger] call_ensures(erase_sync::<T>, (value,), *payload) ==> r is Some && *r->Some_0 == value,
{
    payload.inner.downcast_ref::<T>()
}

/// A [`BoxedService`](super::boxed_service::BoxedService) whose value may
/// cross threads: the form in which a value waits behind a lock.
#[derive(Debug)]
pub struct SyncBoxedService {
    ty: TypeInfo,
    service: SyncAnyBox,
}

impl SyncBoxedService {
    /// The key that the value carries.
    pub closed spec fn spec_ty(&self) -> TypeInfo {
        self.ty
    }

    /// The identifier of the type of the value that the container holds.
    pub closed spec fn held(&self) -> TypeId {
        held_sync_id(self.service)
    }

    /// Whether the container was made from `value`.
    pub closed spec fn holds<TService: 'static + Send + Sync>(&self, value: TService) -> bool {
        call_ensures(erase_sync::<TService>, (value,), self.service)
    }

    /// Wraps `service` under the key of its type.
    pub fn new<TService: 'static + Send + Sync>(service: TService) -> (r: Self)
        ensures
            r.holds(service),
            r.ty().is_key_of::<TService>(),
            r.ty().name@.len() == 0,
            r.held() == r.ty().id,
    {
        let r = Self { service: erase_sync(service), ty: TService::type_info() };
        proof {
            lemma_one_identifier::<TService>(r.held(), r.ty.id);
        }
        r
    }

    /// Wraps `service` under a key that the caller has at hand.
    pub(crate) fn tagged<TService: 'static + Send + Sync>(ty: TypeInfo, service: TService) -> (r: Self)
        ensures
            r.ty() == ty,
            r.holds(service),
            is_id_of::<TService>(r.held()),
    {
        Self { service: erase_sync(service), ty }
    }

    /// Takes the value out as a `TService`. Where the container was made from
    /// a `TService` this gives that value; where it was not, the container
    /// comes back untouched.
    pub fn unbox<TService: 'static + Send + Sync>(self) -> (r: Result<TService, Self>)
        ensures
            (r is Ok) == is_id_of::<TService>(self.held()),
            r matches Err(back) ==> back == self,
            r matches Ok(value) ==> self.holds(value),
            forall|value: TService| #![trigger self.holds(value)] self.holds(value) ==> r == Ok::<TService, Self>(value),
    {
        match downcast_sync::<TService>(self.service) {
            Ok(service) => Ok(service),
            Err(service) => Err(SyncBoxedService { service, ty: self.ty }),
        }
    }

    /// A reference to the value, where it is a `TService`.
    pub fn unbox_ref<TService: 'static + Send + Sync>(&self) -> (r: Option<&TService>)
        ensures
            (r is Some) == is_id_of::<TService>(self.held()),
            r matches Some(value) ==> self.holds(*value),
            forall|value: TService| #![trigger self.holds(value)] self.holds(value) ==> r == Some(&value),
    {
        downcast_sync_ref::<TService>(&self.service)
    }

    /// The key that the value carries.
    #[verifier::when_used_as_spec(spec_ty)]
    pub fn ty(&self) -> (r: TypeInfo)
        ensures
            r == self.ty(),
    {
        self.ty
    }
}

/// Wrapping a value and unwrapping it as its own type gives the value back.
pub proof fn lemma_sync_unbox_round_trip<TService: 'static + Send + Sync>(
    value: TService,
    boxed: SyncBoxedService,
    back: Result<TService, SyncBoxedService>,
)
    requires
        call_ensures(SyncBoxedService::new::<TService>, (value,), boxed),
        call_ensures(SyncBoxedService::unbox::<TService>, (boxed,), back),
    ensures
        back == Ok::<TService, SyncBoxedService>(value),
{
}

/// What a container holds is known by the identifier of its type.
pub proof fn lemma_sync_held_type<TService: 'static + Send + Sync>(
    boxed: SyncBoxedService,
    value: TService,
)
    requires
        boxed.holds(value),
    ensures
        is_id_of::<TService>(boxed.held()),
{
}

/// A container that holds a value of one type holds none of another: of a
/// type whose key differs.
pub proof fn lemma_sync_holds_no_other<
    TService: 'static + Send + Sync,
    TOther: 'static + Send + Sync,
>(boxed: SyncBoxedService, value: TService, own: TypeInfo, other: TypeInfo)
    requires
        boxed.holds(value),
        own.is_key_of::<TService>(),
        other.is_key_of::<TOther>(),
        !own.same(other),
    ensures
        !is_id_of::<TOther>(boxed.held()),
        forall|any: TOther| !#[trigger] boxed.holds(any),
{
    lemma_one_identifier::<TService>(boxed.held(), own.id);
    if is_id_of::<TOther>(boxed.held()) {
        lemma_one_identifier::<TOther>(boxed.held(), other.id);
    }
}

/// Unwrapping as another type fails and hands the container back as it was,
/// under the key of its own type.
pub proof fn lemma_sync_unbox_as_other_type<
    TService: 'static + Send + Sync,
    TOther: 'static + Send + Sync,
>(
    value: TService,
    boxed: SyncBoxedService,
    own: TypeInfo,
    other: TypeInfo,
    back: Result<TOther, SyncBoxedService>,
)
    requires
        call_ensures(SyncBoxedService::new::<TService>, (value,), boxed),
        own.is_key_of::<TService>(),
        other.is_key_of::<TOther>(),
        !own.same(other),
        call_ensures(SyncBoxedService::unbox::<TOther>, (boxed,), back),
    ensures
        back == Err::<TOther, SyncBoxedService>(boxed),
        boxed.ty().same(own),
        boxed.holds(value),
{
    lemma_sync_holds_no_other::<TService, TOther>(boxed, value, own, other);
    lemma_one_identifier::<TService>(boxed.ty().id, own.id);
}

} // verus!
