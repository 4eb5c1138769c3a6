//! An owned value of any `'static` type, carried with its key.

use super::type_info::{is_id_of, lemma_one_identifier, TypeInfo, TypeInfoSource};
use core::any::TypeId;
use core::any::Any;
use vstd::prelude::*;

verus! {

/// A `Box<dyn Any>`: the payload of a [`BoxedService`]. Verus cannot read a
/// `dyn Any`, so the box is held here and reached only through [`erase`] and
/// [`downcast`].
#[verifier::external_body]
#[derive(Debug)]
pub struct AnyBox {
    inner: Box<dyn Any>,
}

/// The identifier of the type of the value that a box was made from: what
/// `Any::type_id` gives for what the box holds.
pub uninterp spec fn held_id(payload: AnyBox) -> TypeId;

/// Boxes `value` with `Box::new` and forgets its type. What the box holds
/// is a `T`, and is known by the identifier of `T` from then on.
#[verifier::external_body]
fn erase<T: 'static>(value: T) -> (r: AnyBox)
    ensures
        is_id_of::<T>(held_id(r)),
{
    AnyBox { inner: Box::new(value) }
}

/// `Box<dyn Any>::downcast::<T>`, unboxed. It gives the value back exactly
/// when what the box holds is known by the identifier of `T`, and then the
/// value that the box was made from; otherwise it gives the box back as it
/// was.
#[verifier::external_body]
fn downcast<T: 'static>(payload: AnyBox) -> (r: Result<T, AnyBox>)
    ensures
        (r is Ok) == is_id_of::<T>(held_id(payload)),
        r matches Err(back) ==> back == payload,
        r matches Ok(value) ==> call_ensures(erase::<T>, (value,), payload),
        forall|value: T| #[trigger] call_ensures(erase::<T>, (value,), payload) ==> r is Ok && r->Ok_0 == value,
{
    match payload.inner.downcast::<T>() {
        Ok(value) => Ok(*value),
        Err(inner) => Err(AnyBox { inner }),
    }
}

/// `<dyn Any>::downcast_ref::<T>` on what the box holds. It gives a
/// reference exactly when what the box holds is known by the identifier of
/// `T`, and then to the value that the box was made from.
#[verifier::external_body]
fn downcast_ref<T: 'static>(payload: &AnyBox) -> (r: Option<&T>)
    ensures
        (r is Some) == is_id_of::<T>(held_id(*payload)),
        r matches Some(value) ==> call_ensures(erase::<T>, (*value,), *payload),
        forall|value: T| #[trigger] call_ensures(erase::<T>, (value,), *payload) ==> r is Some && *r->Some_0 == value,
{
    payload.inner.downcast_ref::<T>()
}

/// A value of a type that is not known where it is held, tagged with the
/// key of that type.
#[derive(Debug)]
pub struct BoxedService {
    ty: TypeInfo,
    service: AnyBox,
}

impl BoxedService {
    /// The key that the value carries.
    pub closed spec fn spec_ty(&self) -> TypeInfo {
        self.ty
    }

    /// The identifier of the type of the value that the container holds.
    pub closed spec fn held(&self) -> TypeId {
        held_id(self.service)
    }

    /// Whether the container was made from `value`.
    pub closed spec fn holds<TService: 'static>(&self, value: TService) -> bool {
        call_ensures(erase::<TService>, (value,), self.service)
    }

    /// Wraps `service` under the key of its type.
    pub fn new<TService: 'static>(service: TService) -> (r: Self)
        ensures
            r.holds(service),
            r.ty().is_key_of::<TService>(),
            r.ty().name@.len() == 0,
            r.held() == r.ty().id,
    {
        let r = Self { service: erase(service), ty: TService::type_info() };
        proof {
            lemma_one_identifier::<TService>(r.held(), r.ty.id);
        }
        r
    }

    /// Wraps `service` under a key that the caller has at hand.
    pub(crate) fn tagged<TService: 'static>(ty: TypeInfo, service: TService) -> (r: Self)
        ensures
            r.ty() == ty,
            r.holds(service),
            is_id_of::<TService>(r.held()),
    {
        Self { service: erase(service), ty }
    }

    /// Takes the value out as a `TService`. Where the container was made from
    /// a `TService` this gives that value; where it was not, the container
    /// comes back untouched.
    pub fn unbox<TService: 'static>(self) -> (r: Result<TService, Self>)
        ensures
            (r is Ok) == is_id_of::<TService>(self.held()),
            r matches Err(back) ==> back == self,
            r matches Ok(value) ==> self.holds(value),
            forall|value: TService| #![trigger self.holds(value)] self.holds(value) ==> r == Ok::<TService, Self>(value),
    {
        match downcast::<TService>(self.service) {
            Ok(service) => Ok(service),
            Err(service) => Err(BoxedService { service, ty: self.ty }),
        }
    }

    /// A reference to the value, where it is a `TService`.
    pub fn unbox_ref<TService: 'static>(&self) -> (r: Option<&TService>)
        ensures
            (r is Some) == is_id_of::<TService>(self.held()),
            r matches Some(value) ==> self.holds(*value),
            forall|value: TService| #![trigger self.holds(value)] self.holds(value) ==> r == Some(&value),
    {
        downcast_ref::<TService>(&self.service)
    }

    /// The key that the value carries.
    #[verifier::when_used_as_spec(spec_ty)]
    pub fn ty(&self) -> (r: TypeInfo)
        ensures
            r == self.ty(),
    {
        self.ty
    }
}

/// Wrapping a value and unwrapping it as its own type gives the value back.
pub proof fn lemma_unbox_round_trip<TService: 'static>(
    value: TService,
    boxed: BoxedService,
    back: Result<TService, BoxedService>,
)
    requires
        call_ensures(BoxedService::new::<TService>, (value,), boxed),
        call_ensures(BoxedService::unbox::<TService>, (boxed,), back),
    ensures
        back == Ok::<TService, BoxedService>(value),
{
}

/// Unwrapping that fails hands the container back as it was, so that it can
/// still be unwrapped as the type that it was made from.
pub proof fn lemma_failed_unbox_hands_back<TService: 'static, TOther: 'static>(
    value: TService,
    boxed: BoxedService,
    back: Result<TOther, BoxedService>,
    again: Result<TService, BoxedService>,
)
    requires
        call_ensures(BoxedService::new::<TService>, (value,), boxed),
        call_ensures(BoxedService::unbox::<TOther>, (boxed,), back),
        back matches Err(handed) && call_ensures(BoxedService::unbox::<TService>, (handed,), again),
    ensures
        back == Err::<TOther, BoxedService>(boxed),
        again == Ok::<TService, BoxedService>(value),
{
}

/// What a container holds is known by the identifier of its type.
pub proof fn lemma_held_type<TService: 'static>(boxed: BoxedService, value: TService)
    requires
        boxed.holds(value),
    ensures
        is_id_of::<TService>(boxed.held()),
{
}

/// A container that holds a value of one type holds none of another: of a
/// type whose key differs.
pub proof fn lemma_holds_no_other<TService: 'static, TOther: 'static>(
    boxed: BoxedService,
    value: TService,
    own: TypeInfo,
    other: TypeInfo,
)
    requires
        boxed.holds(value),
        own.is_key_of::<TService>(),
        other.is_key_of::<TOther>(),
        !own.same(other),
    ensures
        !is_id_of::<TOther>(boxed.held()),
        forall|any: TOther| !#[trigger] boxed.holds(any),
{
    lemma_one_identifier::<TService>(boxed.held(), own.id);
    if is_id_of::<TOther>(boxed.held()) {
        lemma_one_identifier::<TOther>(boxed.held(), other.id);
    }
}

/// Unwrapping as another type fails and hands the container back as it was,
/// under the key of its own type. That the two types differ is what a test
/// of their keys shows.
pub proof fn lemma_unbox_as_other_type<TService: 'static, TOther: 'static>(
    value: TService,
    boxed: BoxedService,
    own: TypeInfo,
    other: TypeInfo,
    back: Result<TOther, BoxedService>,
)
    requires
        call_ensures(BoxedService::new::<TService>, (value,), boxed),
        own.is_key_of::<TService>(),
        other.is_key_of::<TOther>(),
        !own.same(other),
        call_ensures(BoxedService::unbox::<TOther>, (boxed,), back),
    ensures
        back == Err::<TOther, BoxedService>(boxed),
        boxed.ty().same(own),
        boxed.holds(value),
{
    lemma_holds_no_other::<TService, TOther>(boxed, value, own, other);
    lemma_one_identifier::<TService>(boxed.ty().id, own.id);
}

} // verus!
