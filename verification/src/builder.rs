//! Registration: what is built, how it is shared, and under which keys it can be asked for.

use crate::layers::mapping::{
    converted_by, lemma_identity_adds_nothing, typed, MappingDescriptor, MappingLayer,
    MappingLayerBuilder,
};
use crate::layers::scope::builder::ScopeLayerBuilder;
use crate::layers::scope::thread_local::ThreadLocalCtx;
use crate::layers::scope::{lemma_transient_rebuilds, ScopeKind};
use crate::layers::service::{constructs_as, ServiceLayerBuilder};
use crate::types::boxed_service::BoxedService;
use crate::types::error::{ServiceBuildError, ServiceBuildResult};
use crate::types::type_info::{TypeInfo, TypeInfoSource};
use crate::{ServiceProvider, SharedProvider};
use std::marker::PhantomData;
use std::rc::Rc;
use vstd::prelude::*;

verus! {

/// Takes the registrations of a container.
pub struct DiBuilder {
    service_layer: ServiceLayerBuilder,
    scope_layer: ScopeLayerBuilder,
    mapping_layer: MappingLayerBuilder,
}

impl DiBuilder {
    /// The registered constructors.
    pub closed spec fn service_layer(&self) -> ServiceLayerBuilder {
        self.service_layer
    }

    /// The registered lifecycle policies.
    pub closed spec fn scope_layer(&self) -> ScopeLayerBuilder {
        self.scope_layer
    }

    /// The registered mappings.
    pub closed spec fn mapping_layer(&self) -> MappingLayerBuilder {
        self.mapping_layer
    }

    /// The three layers are well formed.
    pub closed spec fn wf(&self) -> bool {
        &&& self.service_layer.wf()
        &&& self.scope_layer.wf()
        &&& self.mapping_layer.wf()
    }

    /// Whether `self` is `before` with the type filed under `ty` registered
    /// under the policy `kind`: its constructor and its policy stand in
    /// place of what was registered for the key, and the mapping of the
    /// type to itself stands at the end of the mappings of the key.
    pub open spec fn registered(&self, before: Self, ty: TypeInfo, kind: ScopeKind) -> bool {
        &&& self.service_layer().added(before.service_layer(), ty)
        &&& self.scope_layer().added(before.scope_layer(), ty, kind)
        &&& self.mapping_layer().identity_added(before.mapping_layer(), ty)
    }

    /// Whether `self` is `before` with one more way to resolve the type
    /// filed under `dest_ty`: from the type filed under `src_ty`, through a
    /// converter.
    pub open spec fn mapped(&self, before: Self, src_ty: TypeInfo, dest_ty: TypeInfo) -> bool {
        &&& self.service_layer() == before.service_layer()
        &&& self.scope_layer() == before.scope_layer()
        &&& exists|mapping: MappingDescriptor|
            #![trigger self.mapping_layer().added(before.mapping_layer(), mapping)]
            self.mapping_layer().added(before.mapping_layer(), mapping) && mapping.src_ty()
                == src_ty && mapping.dest_ty() == dest_ty && mapping.mapper() is Convert
    }

    /// Whether the constructor filed under `ty` builds by `factory`.
    pub open spec fn built_by<TService: 'static, F: Fn(ServiceProvider) -> ServiceBuildResult<TService>>(
        &self,
        ty: TypeInfo,
        factory: F,
    ) -> bool {
        forall|sp: ServiceProvider, out: ServiceBuildResult<BoxedService>|
            #![trigger self.service_layer()@[ty.id].builds(sp, out)]
            self.service_layer()@[ty.id].builds(sp, out) == constructs_as::<TService, F>(
                factory,
                ty,
                sp,
                out,
            )
    }

    /// Whether `self` is `before` with one more way to resolve the type
    /// filed under `dest_ty`: from the type filed under `src_ty`, by `mapper`.
    pub open spec fn mapped_by<TSrc: 'static, TDst: 'static, F: Fn(TSrc) -> ServiceBuildResult<TDst>>(
        &self,
        before: Self,
        src_ty: TypeInfo,
        dest_ty: TypeInfo,
        mapper: F,
    ) -> bool {
        &&& self.service_layer() == before.service_layer()
        &&& self.scope_layer() == before.scope_layer()
        &&& exists|mapping: MappingDescriptor|
            #![trigger self.mapping_layer().added(before.mapping_layer(), mapping)]
            self.mapping_layer().added(before.mapping_layer(), mapping) && mapping.src_ty()
                == src_ty && mapping.dest_ty() == dest_ty && mapping.mapper() is Convert
                && converted_by::<TSrc, TDst, F>(mapping, mapper)
    }

    /// A builder without registrations.
    pub fn new() -> (r: Self)
        ensures
            r.wf(),
            r.service_layer()@.dom().is_empty(),
            r.scope_layer()@.dom().is_empty(),
            r.mapping_layer()@.dom().is_empty(),
    {
        Self {
            service_layer: ServiceLayerBuilder::new(),
            scope_layer: ScopeLayerBuilder::new(),
            mapping_layer: MappingLayerBuilder::new(),
        }
    }

    /// Registers a transient service: every resolution calls `factory`.
    pub fn transient<TService: 'static, F>(&mut self, factory: F) -> (r: DiBuilderService<
        '_,
        TService,
    >) where F: Fn(ServiceProvider) -> ServiceBuildResult<TService> + Send + Sync + 'static
        requires
            old(self).wf(),
            forall|sp: ServiceProvider| call_requires(factory, (sp,)),
        ensures
            r.now().wf(),
            r.ty.is_key_of::<TService>(),
            r.now().registered(*old(self), r.ty, ScopeKind::Transient),
            r.now().built_by::<TService, F>(r.ty, factory),
            *final(r.builder) == *final(self),
    {
        let ty = TService::type_info();
        self.service_layer.add_service::<TService, F>(ty, factory);
        self.scope_layer.add_transient(ty);
        self.mapping_layer.add_identity(ty);
        DiBuilderService::new(self, ty)
    }

    /// Registers a singleton: the first resolution calls `factory`, and
    /// every later one gets a clone of what the first one built.
    pub fn singletone<TService: Send + Sync + Clone + 'static, F>(&mut self, factory: F) -> (r:
        DiBuilderService<'_, TService>) where
        F: Fn(ServiceProvider) -> ServiceBuildResult<TService> + Send + Sync + 'static,

        requires
            old(self).wf(),
            forall|sp: ServiceProvider| call_requires(factory, (sp,)),
        ensures
            r.now().wf(),
            r.ty.is_key_of::<TService>(),
            r.now().registered(*old(self), r.ty, ScopeKind::Singletone),
            r.now().built_by::<TService, F>(r.ty, factory),
            r.now().scope_layer()@[r.ty.id].scope().is_typed::<TService>(),
            *final(r.builder) == *final(self),
    {
        let ty = TService::type_info();
        self.service_layer.add_service::<TService, F>(ty, factory);
        self.scope_layer.add_singletone::<TService>(ty);
        self.mapping_layer.add_identity(ty);
        DiBuilderService::new(self, ty)
    }

    /// Registers a task-scoped service: a singleton of each task scope.
    pub fn task_local<TService: Send + Sync + Clone + 'static, F>(&mut self, factory: F) -> (r:
        DiBuilderService<'_, TService>) where
        F: Fn(ServiceProvider) -> ServiceBuildResult<TService> + Send + Sync + 'static,

        requires
            old(self).wf(),
            forall|sp: ServiceProvider| call_requires(factory, (sp,)),
        ensures
            r.now().wf(),
            r.ty.is_key_of::<TService>(),
            r.now().registered(*old(self), r.ty, ScopeKind::TaskLocal),
            r.now().built_by::<TService, F>(r.ty, factory),
            r.now().scope_layer()@[r.ty.id].scope().is_typed::<TService>(),
            *final(r.builder) == *final(self),
    {
        let ty = TService::type_info();
        self.service_layer.add_service::<TService, F>(ty, factory);
        self.scope_layer.add_task_local::<TService>(ty);
        self.mapping_layer.add_identity(ty);
        DiBuilderService::new(self, ty)
    }

    /// Registers a thread-scoped service: a singleton of each thread.
    pub fn thread_local<TService: Clone + 'static, F>(&mut self, factory: F) -> (r:
        DiBuilderService<'_, TService>) where
        F: Fn(ServiceProvider) -> ServiceBuildResult<TService> + Send + Sync + 'static,

        requires
            old(self).wf(),
            forall|sp: ServiceProvider| call_requires(factory, (sp,)),
        ensures
            r.now().wf(),
            r.ty.is_key_of::<TService>(),
            r.now().registered(*old(self), r.ty, ScopeKind::ThreadLocal),
            r.now().built_by::<TService, F>(r.ty, factory),
            r.now().scope_layer()@[r.ty.id].scope().splits_typed::<TService>(),
            *final(r.builder) == *final(self),
    {
        let ty = TService::type_info();
        self.service_layer.add_service::<TService, F>(ty, factory);
        self.scope_layer.add_thread_local::<TService>(ty);
        self.mapping_layer.add_identity(ty);
        DiBuilderService::new(self, ty)
    }

    /// Freezes the registrations into a container, seen from a thread that
    /// has cached nothing yet and from outside every task scope.
    pub fn build(self) -> (r: ServiceProvider)
        requires
            self.wf(),
        ensures
            r.layers().wf(),
            r.layers().mappings() == self.mapping_layer()@,
            r.layers().scope_layer().scopes() == self.scope_layer()@,
            r.layers().scope_layer().services() == self.service_layer()@,
            r.thread_registry().is_new(),
            r.task_registry() is None,
    {
        let service_layer = self.service_layer.build();
        let scope_layer = self.scope_layer.build(service_layer);
        let mapping_layer = self.mapping_layer.build(scope_layer);
        SharedProvider::new(mapping_layer).bind(Rc::new(ThreadLocalCtx::new()), None)
    }
}

impl Default for DiBuilder {
    /// A builder without registrations.
    fn default() -> (r: Self)
        ensures
            r.wf(),
            r.service_layer()@.dom().is_empty(),
            r.scope_layer()@.dom().is_empty(),
            r.mapping_layer()@.dom().is_empty(),
    {
        DiBuilder::new()
    }
}

/// A registration that was just made, to which further ways of resolving
/// the registered service can be added.
pub struct DiBuilderService<'a, TService: 'static> {
    pub pd: PhantomData<TService>,
    pub builder: &'a mut DiBuilder,
    pub ty: TypeInfo,
}

impl<'a, TService: 'static> DiBuilderService<'a, TService> {
    /// The builder as it stands.
    pub open spec fn now(&self) -> DiBuilder {
        *self.builder
    }

    fn new(builder: &'a mut DiBuilder, ty: TypeInfo) -> (r: Self)
        ensures
            r.now() == *old(builder),
            r.ty == ty,
            *final(r.builder) == *final(builder),
    {
        Self { pd: PhantomData, builder, ty }
    }

    /// Lets the service be asked for as a `TDst` too, which `mapper` makes
    /// of it.
    pub fn map_as<TDst: 'static, F>(self, mapper: F) -> (r: Self) where
        F: Fn(TService) -> ServiceBuildResult<TDst> + Sync + Send + 'static,

        requires
            self.now().wf(),
            forall|service: TService| call_requires(mapper, (service,)),
        ensures
            r.now().wf(),
            r.ty == self.ty,
            exists|dest_ty: TypeInfo|
                dest_ty.is_key_of::<TDst>() && #[trigger] r.now().mapped(
                    self.now(),
                    self.ty,
                    dest_ty,
                ) && r.now().mapped_by::<TService, TDst, F>(self.now(), self.ty, dest_ty, mapper),
            *final(r.builder) == *final(self.builder),
    {
        let dest_ty = TDst::type_info();
        let ghost before = *self.builder;
        self.builder.mapping_layer.add_mapping::<TService, TDst, F>(self.ty, dest_ty, mapper);
        proof {
            let mapping = choose|mapping: MappingDescriptor|
                #![trigger self.builder.mapping_layer.added(before.mapping_layer, mapping)]
                self.builder.mapping_layer.added(before.mapping_layer, mapping) && mapping.src_ty()
                    == self.ty && mapping.dest_ty() == dest_ty && mapping.mapper() is Convert
                    && converted_by::<TService, TDst, F>(mapping, mapper);
            assert(self.builder.mapping_layer().added(before.mapping_layer(), mapping));
            assert(self.builder.mapped(before, self.ty, dest_ty));
            assert(self.builder.mapped_by::<TService, TDst, F>(before, self.ty, dest_ty, mapper));
        }
        self
    }
}

/// Right after the registration of a constructor, the type resolves as
/// itself with no mapping asked for: resolving any key of the type in the
/// finished container comes to what its policy makes of its constructor, and
/// for a transient type to what the constructor gives. The key must have had no
/// mapping before: where a converter into the type was registered first,
/// that converter stays the first way to resolve it.
pub proof fn lemma_registered_resolves_as_itself(
    before: DiBuilder,
    after: DiBuilder,
    ty: TypeInfo,
    kind: ScopeKind,
    layers: MappingLayer,
    asked: TypeInfo,
    sp: ServiceProvider,
    r: ServiceBuildResult<BoxedService>,
)
    requires
        after.registered(before, ty, kind),
        !before.mapping_layer()@.contains_key(ty.id),
        layers.mappings() == after.mapping_layer()@,
        layers.scope_layer().scopes() == after.scope_layer()@,
        layers.scope_layer().services() == after.service_layer()@,
        asked.same(ty),
    ensures
        after.scope_layer()@[ty.id].scope().kind() == kind,
        layers.resolves(asked, sp, r) <==> after.scope_layer()@[ty.id].yields(
            after.service_layer()@[ty.id],
            sp,
            r,
        ),
        kind == ScopeKind::Transient ==> (layers.resolves(asked, sp, r) <==> after.service_layer()@[ty.id].builds(
            sp,
            r,
        )),
{
    let mapping = choose|mapping: MappingDescriptor|
        #![trigger after.mapping_layer().added(before.mapping_layer(), mapping)]
        after.mapping_layer().added(before.mapping_layer(), mapping) && mapping.src_ty() == ty
            && mapping.dest_ty() == ty && mapping.mapper() is Identity;
    assert(after.mapping_layer()@.dom().contains(ty.id));
    assert(after.scope_layer()@.dom().contains(ty.id));
    assert(after.service_layer()@.dom().contains(ty.id));
    assert(layers.mappings()[ty.id] == Seq::<MappingDescriptor>::empty().push(mapping));
    assert(layers.mappings()[ty.id][0] == mapping);
    lemma_identity_adds_nothing(layers, mapping, sp, r);
    if kind == ScopeKind::Transient {
        lemma_transient_rebuilds(
            after.scope_layer()@[ty.id],
            after.service_layer()@[ty.id],
            sp,
            r,
        );
    }
}

/// A transient type that was just registered resolves, as its own type and
/// under any key of it, to what its constructor function gives: the value of
/// the function comes out unchanged, and so does its failure, whatever was
/// resolved before. The key must have had no mapping before.
pub proof fn lemma_transient_resolves_to_what_the_factory_gives<
    TService: 'static,
    F: Fn(ServiceProvider) -> ServiceBuildResult<TService>,
>(
    before: DiBuilder,
    after: DiBuilder,
    ty: TypeInfo,
    factory: F,
    layers: MappingLayer,
    asked: TypeInfo,
    sp: ServiceProvider,
    raw: ServiceBuildResult<BoxedService>,
    r: ServiceBuildResult<TService>,
)
    requires
        after.registered(before, ty, ScopeKind::Transient),
        after.built_by::<TService, F>(ty, factory),
        ty.is_key_of::<TService>(),
        !before.mapping_layer()@.contains_key(ty.id),
        layers.mappings() == after.mapping_layer()@,
        layers.scope_layer().scopes() == after.scope_layer()@,
        layers.scope_layer().services() == after.service_layer()@,
        asked.is_key_of::<TService>(),
        layers.resolves(asked, sp, raw),
        typed::<TService>(asked, raw, r),
    ensures
        call_ensures(factory, (sp,), r),
{
    lemma_registered_resolves_as_itself(
        before,
        after,
        ty,
        ScopeKind::Transient,
        layers,
        asked,
        sp,
        raw,
    );
    let descriptor = after.service_layer()@[ty.id];
    assert(descriptor.builds(sp, raw));
    assert(after.service_layer()@.dom().contains(ty.id));
    assert(descriptor.ty() == ty);
    assert(constructs_as::<TService, F>(factory, ty, sp, raw));
    let made = choose|made: ServiceBuildResult<TService>|
        #![trigger call_ensures(factory, (sp,), made)]
        call_ensures(factory, (sp,), made) && match made {
            Ok(service) => raw matches Ok(boxed) && boxed.ty() == ty && boxed.holds(service),
            Err(error) => raw == Err::<BoxedService, ServiceBuildError>(error),
        };
    assert(r == made);
}

} // verus!
