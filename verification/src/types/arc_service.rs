//! A shared value of any thread-safe `'static` type, carried with its key.

use super::type_info::{is_id_of, lemma_one_identifier, TypeInfo, TypeInfoSource};
use core::any::TypeId;
use core::any::Any;
use std::sync::Arc;
use vstd::prelude::*;

verus! {

/// An `Arc<dyn Any + Send + Sync>`: the payload of an [`ArcService`], reached
/// only through the four functions below.
#[verifier::external_body]
pub struct SharedAny {
    inner: Arc<dyn Any + Send + Sync>,
}

/// The identifier of the type of the value that a payload was made from:
/// what `Any::type_id` gives for what the `Arc` points to.
pub uninterp spec fn held_shared_id(payload: SharedAny) -> TypeId;

/// Puts `value` behind an `Arc` with `Arc::new` and forgets its type. What
/// the `Arc` points to is a `T`, and is known by the identifier of `T` from
/// then on.
#[verifier::external_body]
fn erase_shared<T: 'static + Send + Sync>(value: T) -> (r: SharedAny)
    ensures
        is_id_of::<T>(held_shared_id(r)),
{
    SharedAny { inner: Arc::new(value) }
}

/// `Arc::clone`: a second handle to the same value.
#[verifier::external_body]
fn clone_shared(payload: &SharedAny) -> (r: SharedAny)
    ensures
        r == *payload,
{
    SharedAny { inner: Arc::clone(&payload.inner) }
}

/// `<dyn Any>::downcast_ref::<T>` on what the `Arc` points to. It gives a
/// reference exactly when what the `Arc` points to is known by the identifier
/// of `T`, and then to the value that the payload was made from.
#[verifier::external_body]
fn downcast_shared_ref<T: 'static>(payload: &SharedAny) -> (r: Option<&T>)
    where T: Send + Sync
    ensures
        (r is Some) == is_id_of::<T>(held_shared_id(*payload)),
        r matches Some(value) ==> call_ensures(erase_shared::<T>, (*value,), *payload),
        forall|value: T| #[trigger] call_ensures(erase_shared::<T>, (value,), *payload) ==> r is Some && *r->Some_0 == value,
{
    payload.inner.downcast_ref::<T>()
}

/// `Arc<dyn Any + Send + Sync>::downcast::<T>`. It gives the typed `Arc`
/// exactly when what the `Arc` points to is known by the identifier of `T`,
/// and then it points to the value that the payload was made from; otherwise
/// it gives the payload back as it was.
#[verifier::external_body]
fn downcast_shared<T: 'static + Send + Sync>(payload: SharedAny) -> (r: Result<Arc<T>, SharedAny>)
    ensures
        (r is Ok) == is_id_of::<T>(held_shared_id(payload)),
        r matches Err(back) ==> back == payload,
        r matches Ok(value) ==> call_ensures(erase_shared::<T>, (*value,), payload),
        forall|value: T| #[trigger] call_ensures(erase_shared::<T>, (value,), payload) ==> r is Ok && *r->Ok_0 == value,
{
    match payload.inner.downcast::<T>() {
        Ok(value) => Ok(value),
        Err(inner) => Err(SharedAny { inner }),
    }
}

/// A value of a type that is not known where it is held, shared by all the
/// clones of the handle.
pub struct ArcService {
    ty: TypeInfo,
    service: SharedAny,
}

impl Clone for ArcService {
    fn clone(&self) -> (r: Self)
        ensures
            r == *self,
    {
        ArcService { ty: self.ty, service: clone_shared(&self.service) }
    }
}

impl ArcService {
    /// The key that the value carries.
    pub closed spec fn spec_ty(&self) -> TypeInfo {
        self.ty
    }

    /// The identifier of the type of the value that the handle points to.
    pub closed spec fn held(&self) -> TypeId {
        held_shared_id(self.service)
    }

    /// Whether the handle was made from `value`.
    pub closed spec fn holds<TService: 'static + Send + Sync>(&self, value: TService) -> bool {
        call_ensures(erase_shared::<TService>, (value,), self.service)
    }

    /// Shares `service` under the key of its type.
    pub fn new<TService: 'static + Send + Sync>(service: TService) -> (r: Self)
        ensures
            r.holds(service),
            r.ty().is_key_of::<TService>(),
            r.ty().name@.len() == 0,
            r.held() == r.ty().id,
    {
        let r = Self { service: erase_shared(service), ty: TService::type_info() };
        proof {
            lemma_one_identifier::<TService>(r.held(), r.ty.id);
        }
        r
    }

    /// A reference to the value, where it is a `TService`.
    pub fn unbox_ref<TService: 'static + Send + Sync>(&self) -> (r: Option<&TService>)
        ensures
            (r is Some) == is_id_of::<TService>(self.held()),
            r matches Some(value) ==> self.holds(*value),
            forall|value: TService| #![trigger self.holds(value)] self.holds(value) ==> r == Some(&value),
    {
        downcast_shared_ref::<TService>(&self.service)
    }

    /// A clone of the value, where it is a `TService`; otherwise the handle
    /// comes back untouched.
    pub fn clone_unbox<TService: 'static + Clone + Sync + Send>(self) -> (r: Result<TService, Self>)
        ensures
            (r is Ok) == is_id_of::<TService>(self.held()),
            r matches Err(back) ==> back == self,
            r matches Ok(copy) ==> exists|value: TService| self.holds(value) && cloned::<TService>(value, copy),
            forall|value: TService| #![trigger self.holds(value)] self.holds(value) ==> r is Ok && cloned::<TService>(value, r->Ok_0),
    {
        match downcast_shared::<TService>(self.service) {
            Ok(service) => {
                let copy = (*service).clone();
                assert(self.holds(*service) && cloned::<TService>(*service, copy));
                Ok(copy)
            },
            Err(service) => Err(ArcService { service, ty: self.ty }),
        }
    }

    /// The key that the value carries.
    #[verifier::when_used_as_spec(spec_ty)]
    pub fn ty(&self) -> (r: TypeInfo)
        ensures
            r == self.ty(),
    {
        self.ty
    }
}

/// Taking a reference or a clone as another type gives none, and the
/// handle comes back as it was, under the key of its own type. That the two
/// types differ is what a test of their keys shows.
pub proof fn lemma_shared_unbox_as_other_type<
    TService: 'static + Send + Sync,
    TOther: 'static + Clone + Send + Sync,
>(
    value: TService,
    shared: ArcService,
    own: TypeInfo,
    other: TypeInfo,
    by_ref: Option<&TOther>,
    back: Result<TOther, ArcService>,
)
    requires
        call_ensures(ArcService::new::<TService>, (value,), shared),
        own.is_key_of::<TService>(),
        other.is_key_of::<TOther>(),
        !own.same(other),
        call_ensures(ArcService::unbox_ref::<TOther>, (&shared,), by_ref),
        call_ensures(ArcService::clone_unbox::<TOther>, (shared,), back),
    ensures
        by_ref is None,
        back == Err::<TOther, ArcService>(shared),
        shared.ty().same(own),
{
    lemma_one_identifier::<TService>(shared.held(), own.id);
    if is_id_of::<TOther>(shared.held()) {
        lemma_one_identifier::<TOther>(shared.held(), other.id);
    }
}

} // verus!
