//! The construction layer: the constructor of each registered type.

use crate::types::boxed_service::BoxedService;
use crate::types::error::{ServiceBuildError, ServiceBuildResult};
use crate::types::type_info::TypeInfo;
use crate::types::type_map::TypeMap;
use crate::ServiceProvider;
use core::any::TypeId;
use vstd::prelude::*;

verus! {

/// A constructor whose result type has been erased.
pub trait Construct: Send + Sync {
    /// Whether `r` is what a call on `sp` can come back with, the value
    /// tagged with `ty`.
    spec fn constructs(
        &self,
        ty: TypeInfo,
        sp: ServiceProvider,
        r: ServiceBuildResult<BoxedService>,
    ) -> bool;

    /// Builds a service and tags it with `ty`.
    fn construct(&self, ty: TypeInfo, sp: ServiceProvider) -> (r: ServiceBuildResult<BoxedService>)
        ensures
            self.constructs(ty, sp, r),
            r matches Ok(service) ==> service.ty() == ty,
    ;
}

/// What building with `factory` on `sp` comes to: what the function gives,
/// wrapped under `ty`; or the failure of the function, unchanged.
pub open spec fn constructs_as<TService: 'static, F: Fn(ServiceProvider) -> ServiceBuildResult<TService>>(
    factory: F,
    ty: TypeInfo,
    sp: ServiceProvider,
    r: ServiceBuildResult<BoxedService>,
) -> bool {
    exists|made: ServiceBuildResult<TService>|
        #![trigger call_ensures(factory, (sp,), made)]
        call_ensures(factory, (sp,), made) && match made {
            Ok(service) => r matches Ok(boxed) && boxed.ty() == ty && boxed.holds(service),
            Err(error) => r == Err::<BoxedService, ServiceBuildError>(error),
        }
}

/// A constructor of `TService` values, made from a plain function.
#[verifier::reject_recursive_types(TService)]
pub struct TypedConstructor<TService, F: Fn(ServiceProvider) -> ServiceBuildResult<TService>> {
    factory: F,
    marker: Ghost<Option<TService>>,
}

impl<TService, F: Fn(ServiceProvider) -> ServiceBuildResult<TService>> TypedConstructor<
    TService,
    F,
> {
    /// The function can be called on every context.
    #[verifier::type_invariant]
    spec fn callable(self) -> bool {
        forall|sp: ServiceProvider| call_requires(self.factory, (sp,))
    }
}

impl<
    TService: 'static,
    F: Fn(ServiceProvider) -> ServiceBuildResult<TService> + Send + Sync,
> Construct for TypedConstructor<TService, F> {
    closed spec fn constructs(
        &self,
        ty: TypeInfo,
        sp: ServiceProvider,
        r: ServiceBuildResult<BoxedService>,
    ) -> bool {
        constructs_as::<TService, F>(self.factory, ty, sp, r)
    }

    fn construct(&self, ty: TypeInfo, sp: ServiceProvider) -> (r: ServiceBuildResult<BoxedService>) {
        proof {
            use_type_invariant(self);
        }
        let made = (self.factory)(sp);
        let r = match made {
            Ok(service) => Ok(BoxedService::tagged(ty, service)),
            Err(error) => Err(error),
        };
        assert(call_ensures(self.factory, (sp,), made));
        r
    }
}

/// The constructor of one type.
pub struct ServiceFactory {
    constructor: Box<dyn Construct>,
}

impl ServiceFactory {
    /// Whether `r` is what a call of the constructor on `sp` can come back
    /// with, the value tagged with `ty`.
    pub closed spec fn builds(
        &self,
        ty: TypeInfo,
        sp: ServiceProvider,
        r: ServiceBuildResult<BoxedService>,
    ) -> bool {
        self.constructor.constructs(ty, sp, r)
    }

    /// Erases a constructor function.
    pub fn new<TService: 'static, F>(factory: F) -> (r: Self) where
        F: Fn(ServiceProvider) -> ServiceBuildResult<TService> + Send + Sync + 'static,

        requires
            forall|sp: ServiceProvider| call_requires(factory, (sp,)),
        ensures
            forall|ty: TypeInfo, sp: ServiceProvider, out: ServiceBuildResult<BoxedService>|
                #![trigger r.builds(ty, sp, out)]
                r.builds(ty, sp, out) == constructs_as::<TService, F>(factory, ty, sp, out),
    {
        let typed = TypedConstructor::<TService, F> { factory, marker: Ghost(None) };
        Self { constructor: Box::new(typed) }
    }

    /// Builds a new service and tags it with `ty`. Whatever the constructor
    /// fails with comes back unchanged.
    pub fn build(&self, ty: TypeInfo, sp: ServiceProvider) -> (r: ServiceBuildResult<BoxedService>)
        ensures
            self.builds(ty, sp, r),
            r matches Ok(service) ==> service.ty() == ty,
    {
        self.constructor.construct(ty, sp)
    }
}

/// How one type is built: its key and its constructor.
pub struct ServiceDescriptior {
    ty: TypeInfo,
    factory: ServiceFactory,
}

impl ServiceDescriptior {
    /// The key of the type that is built.
    pub closed spec fn spec_ty(&self) -> TypeInfo {
        self.ty
    }

    /// The constructor.
    pub closed spec fn spec_factory(&self) -> &ServiceFactory {
        &self.factory
    }

    /// Whether `r` is what building on `sp` can come back with.
    pub open spec fn builds(&self, sp: ServiceProvider, r: ServiceBuildResult<BoxedService>) -> bool {
        self.factory().builds(self.ty(), sp, r)
    }

    /// Describes the type filed under `ty` by its constructor function.
    pub fn from_factory<TService: 'static, F>(ty: TypeInfo, factory: F) -> (r: Self) where
        F: Fn(ServiceProvider) -> ServiceBuildResult<TService> + Send + Sync + 'static,

        requires
            forall|sp: ServiceProvider| call_requires(factory, (sp,)),
        ensures
            r.ty() == ty,
            forall|sp: ServiceProvider, out: ServiceBuildResult<BoxedService>|
                #![trigger r.builds(sp, out)]
                r.builds(sp, out) == constructs_as::<TService, F>(factory, ty, sp, out),
    {
        Self { ty, factory: ServiceFactory::new::<TService, F>(factory) }
    }

    /// The key of the type that is built.
    #[verifier::when_used_as_spec(spec_ty)]
    pub fn ty(&self) -> (r: TypeInfo)
        ensures
            r == self.ty(),
    {
        self.ty
    }

    /// The constructor.
    #[verifier::when_used_as_spec(spec_factory)]
    pub fn factory(&self) -> (r: &ServiceFactory)
        ensures
            r == self.factory(),
    {
        &self.factory
    }

    /// Builds a new service under the descriptor's key.
    pub fn build(&self, sp: ServiceProvider) -> (r: ServiceBuildResult<BoxedService>)
        ensures
            self.builds(sp, r),
            r matches Ok(service) ==> service.ty() == self.ty(),
    {
        self.factory.build(self.ty, sp)
    }
}

/// The construction layer of a finished container.
pub struct ServiceLayer {
    services: TypeMap<ServiceDescriptior>,
}

impl View for ServiceLayer {
    type V = Map<TypeId, ServiceDescriptior>;

    closed spec fn view(&self) -> Map<TypeId, ServiceDescriptior> {
        self.services@
    }
}

impl ServiceLayer {
    /// Every descriptor is filed under the key that it carries.
    pub closed spec fn wf(&self) -> bool {
        &&& self.services.wf()
        &&& forall|id: TypeId| #[trigger] self@.contains_key(id) ==> self@[id].ty().id == id
    }

    /// The descriptor of `ty`, or `ServiceNotFound` where no constructor was
    /// registered for it.
    pub fn get(&self, ty: TypeInfo) -> (r: ServiceBuildResult<&ServiceDescriptior>)
        requires
            self.wf(),
        ensures
            r == (if self@.contains_key(ty.id) {
                Ok::<&ServiceDescriptior, ServiceBuildError>(&self@[ty.id])
            } else {
                Err(ServiceBuildError::ServiceNotFound { ty })
            }),
            r matches Ok(descriptor) ==> descriptor.ty().same(ty),
    {
        match self.services.get(&ty) {
            Some(descriptor) => {
                assert(self@.contains_key(ty.id));
                Ok(descriptor)
            },
            None => Err(ServiceBuildError::ServiceNotFound { ty }),
        }
    }

    /// Freezes what the builder holds.
    fn new(builder: ServiceLayerBuilder) -> (r: Self)
        requires
            builder.wf(),
        ensures
            r.wf(),
            r@ == builder@,
    {
        ServiceLayer { services: builder.services }
    }
}

/// The construction layer while registrations are taken.
pub struct ServiceLayerBuilder {
    services: TypeMap<ServiceDescriptior>,
}

impl View for ServiceLayerBuilder {
    type V = Map<TypeId, ServiceDescriptior>;

    closed spec fn view(&self) -> Map<TypeId, ServiceDescriptior> {
        self.services@
    }
}

impl ServiceLayerBuilder {
    /// Every descriptor is filed under the key that it carries.
    pub closed spec fn wf(&self) -> bool {
        &&& self.services.wf()
        &&& forall|id: TypeId| #[trigger] self@.contains_key(id) ==> self@[id].ty().id == id
    }

    /// Whether `self` is `before` with a constructor filed under `ty`, in
    /// place of the one that was filed there.
    pub open spec fn added(&self, before: Self, ty: TypeInfo) -> bool {
        &&& self@.dom() == before@.dom().insert(ty.id)
        &&& self@[ty.id].ty() == ty
        &&& forall|id: TypeId| id != ty.id && before@.contains_key(id) ==> self@[id] == before@[id]
    }

    /// A layer without constructors.
    pub fn new() -> (r: Self)
        ensures
            r.wf(),
            r@ == Map::<TypeId, ServiceDescriptior>::empty(),
    {
        Self { services: TypeMap::new() }
    }

    /// Registers the constructor of the type filed under `ty`, in place of
    /// the one that was registered for it before.
    pub fn add_service<TService: 'static, F>(&mut self, ty: TypeInfo, factory: F) where
        F: Fn(ServiceProvider) -> ServiceBuildResult<TService> + Send + Sync + 'static,

        requires
            old(self).wf(),
            forall|sp: ServiceProvider| call_requires(factory, (sp,)),
        ensures
            final(self).wf(),
            final(self).added(*old(self), ty),
            forall|sp: ServiceProvider, out: ServiceBuildResult<BoxedService>|
                #![trigger final(self)@[ty.id].builds(sp, out)]
                final(self)@[ty.id].builds(sp, out) == constructs_as::<TService, F>(
                    factory,
                    ty,
                    sp,
                    out,
                ),
    {
        let descriptor = ServiceDescriptior::from_factory::<TService, F>(ty, factory);
        self.services.insert(ty, descriptor);
        assert forall|id: TypeId| #[trigger] self@.contains_key(id) implies self@[id].ty().id == id by {
            if id != ty.id {
                assert(old(self)@.contains_key(id));
            }
        }
        assert(self@.dom() =~= old(self)@.dom().insert(ty.id));
    }

    /// Freezes the layer.
    pub fn build(self) -> (r: ServiceLayer)
        requires
            self.wf(),
        ensures
            r.wf(),
            r@ == self@,
    {
        ServiceLayer::new(self)
    }
}

} // verus!
