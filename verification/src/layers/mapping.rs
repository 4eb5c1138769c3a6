//! The mapping layer: under which destination keys a constructed value can be asked for.

use crate::layers::scope::{lemma_transient_rebuilds, ScopeKind, ScopeLayer};
use crate::layers::service::constructs_as;
use crate::types::boxed_service::BoxedService;
use crate::types::error::{ServiceBuildError, ServiceBuildResult};
use crate::types::type_info::{is_id_of, TypeInfo, TypeInfoSource};
use crate::types::type_map::TypeMap;
use crate::ServiceProvider;
use core::any::TypeId;
use vstd::prelude::*;

verus! {

/// A converter whose source and destination types have been erased.
pub trait Convert: Send + Sync {
    /// Whether `r` is what converting `service` can come back with, the
    /// value tagged with `dest`.
    spec fn converts(
        &self,
        src: TypeInfo,
        dest: TypeInfo,
        service: BoxedService,
        r: ServiceBuildResult<BoxedService>,
    ) -> bool;

    /// Converts `service` and tags the value with `dest`.
    fn convert(&self, src: TypeInfo, dest: TypeInfo, service: BoxedService) -> (r:
        ServiceBuildResult<BoxedService>)
        ensures
            self.converts(src, dest, service, r),
            r matches Ok(mapped) ==> mapped.ty() == dest,
    ;
}

/// What converting `service` with `mapper` comes to: a failure of this
/// boundary where `service` holds no `TSrc`, which shows in the identifier of
/// what it holds; otherwise what the function
/// makes of the value, wrapped under `dest`, or the failure of the function,
/// unchanged.
pub open spec fn converts_as<TSrc: 'static, TDst: 'static, F: Fn(TSrc) -> ServiceBuildResult<TDst>>(
    mapper: F,
    src: TypeInfo,
    dest: TypeInfo,
    service: BoxedService,
    r: ServiceBuildResult<BoxedService>,
) -> bool {
    &&& !is_id_of::<TSrc>(service.held()) ==> r == Err::<
        BoxedService,
        ServiceBuildError,
    >(
        ServiceBuildError::InvalidMappingLayerBoxedInputType {
            expected: src,
            found: service.ty(),
        },
    )
    &&& (forall|value: TSrc| !#[trigger] service.holds(value)) ==> r == Err::<
        BoxedService,
        ServiceBuildError,
    >(
        ServiceBuildError::InvalidMappingLayerBoxedInputType {
            expected: src,
            found: service.ty(),
        },
    )
    &&& forall|value: TSrc| #[trigger]
        service.holds(value) ==> exists|made: ServiceBuildResult<TDst>|
            #![trigger call_ensures(mapper, (value,), made)]
            call_ensures(mapper, (value,), made) && match made {
                Ok(mapped) => r matches Ok(boxed) && boxed.ty() == dest && boxed.holds(mapped),
                Err(error) => r == Err::<BoxedService, ServiceBuildError>(error),
            }
}

/// A converter from `TSrc` to `TDst`, made from a plain function.
#[verifier::reject_recursive_types(TSrc)]
#[verifier::reject_recursive_types(TDst)]
pub struct TypedConverter<TSrc, TDst, F: Fn(TSrc) -> ServiceBuildResult<TDst>> {
    mapper: F,
    marker: Ghost<Option<(TSrc, TDst)>>,
}

impl<TSrc, TDst, F: Fn(TSrc) -> ServiceBuildResult<TDst>> TypedConverter<TSrc, TDst, F> {
    /// The function can be called on every value.
    #[verifier::type_invariant]
    spec fn callable(self) -> bool {
        forall|service: TSrc| call_requires(self.mapper, (service,))
    }
}

impl<
    TSrc: 'static,
    TDst: 'static,
    F: Fn(TSrc) -> ServiceBuildResult<TDst> + Send + Sync,
> Convert for TypedConverter<TSrc, TDst, F> {
    closed spec fn converts(
        &self,
        src: TypeInfo,
        dest: TypeInfo,
        service: BoxedService,
        r: ServiceBuildResult<BoxedService>,
    ) -> bool {
        converts_as::<TSrc, TDst, F>(self.mapper, src, dest, service, r)
    }

    fn convert(&self, src: TypeInfo, dest: TypeInfo, service: BoxedService) -> (r:
        ServiceBuildResult<BoxedService>) {
        proof {
            use_type_invariant(self);
        }
        let found = service.ty();
        match service.unbox::<TSrc>() {
            Err(_) => Err(
                ServiceBuildError::InvalidMappingLayerBoxedInputType { expected: src, found },
            ),
            Ok(value) => {
                let made = (self.mapper)(value);
                let r = match made {
                    Ok(mapped) => Ok(BoxedService::tagged(dest, mapped)),
                    Err(error) => Err(error),
                };
                assert forall|held: TSrc| #[trigger] service.holds(held) implies exists|
                    made: ServiceBuildResult<TDst>,
                |
                    #![trigger call_ensures(self.mapper, (held,), made)]
                    call_ensures(self.mapper, (held,), made) && match made {
                        Ok(mapped) => r matches Ok(boxed) && boxed.ty() == dest && boxed.holds(
                            mapped,
                        ),
                        Err(error) => r == Err::<BoxedService, ServiceBuildError>(error),
                    } by {
                    assert(held == value);
                    assert(call_ensures(self.mapper, (held,), made));
                }
                r
            },
        }
    }
}

/// How a source value becomes a destination value.
pub enum ServiceMapper {
    /// The value is handed on as it is: a type asked for as itself.
    Identity,
    /// The value goes through a registered converter.
    Convert(Box<dyn Convert>),
}

impl ServiceMapper {
    /// Whether `r` is what mapping `service` can come back with.
    pub open spec fn maps(
        &self,
        src: TypeInfo,
        dest: TypeInfo,
        service: BoxedService,
        r: ServiceBuildResult<BoxedService>,
    ) -> bool {
        match self {
            ServiceMapper::Identity => r == Ok::<BoxedService, ServiceBuildError>(service),
            ServiceMapper::Convert(converter) => converter.converts(src, dest, service, r),
        }
    }

    /// Erases a converter function.
    pub fn new<TSrc: 'static, TDst: 'static, F>(converter: F) -> (r: Self) where
        F: Fn(TSrc) -> ServiceBuildResult<TDst> + Send + Sync + 'static,

        requires
            forall|service: TSrc| call_requires(converter, (service,)),
        ensures
            r is Convert,
            forall|src: TypeInfo, dest: TypeInfo, service: BoxedService, out: ServiceBuildResult<BoxedService>|
                #![trigger r.maps(src, dest, service, out)]
                r.maps(src, dest, service, out) == converts_as::<TSrc, TDst, F>(
                    converter,
                    src,
                    dest,
                    service,
                    out,
                ),
    {
        let typed = TypedConverter::<TSrc, TDst, F> { mapper: converter, marker: Ghost(None) };
        ServiceMapper::Convert(Box::new(typed))
    }

    /// Maps a value that was resolved under `src` to one under `dest`.
    pub fn map(&self, src: TypeInfo, dest: TypeInfo, service: BoxedService) -> (r:
        ServiceBuildResult<BoxedService>)
        ensures
            self.maps(src, dest, service, r),
            r matches Ok(mapped) ==> mapped.ty() == (if self is Identity {
                service.ty()
            } else {
                dest
            }),
    {
        match self {
            ServiceMapper::Identity => Ok(service),
            ServiceMapper::Convert(converter) => converter.convert(src, dest, service),
        }
    }
}

/// One way to resolve a destination type: from which source, and how.
pub struct MappingDescriptor {
    src_ty: TypeInfo,
    dest_ty: TypeInfo,
    mapper: ServiceMapper,
}

impl MappingDescriptor {
    /// The key of the source type.
    pub closed spec fn spec_src_ty(&self) -> TypeInfo {
        self.src_ty
    }

    /// The key of the destination type.
    pub closed spec fn spec_dest_ty(&self) -> TypeInfo {
        self.dest_ty
    }

    /// The conversion.
    pub closed spec fn mapper(&self) -> ServiceMapper {
        self.mapper
    }

    /// An identity mapping maps a key to itself.
    pub open spec fn wf(&self) -> bool {
        self.mapper() is Identity ==> self.src_ty().same(self.dest_ty())
    }

    /// Whether `r` is what mapping `service` can come back with.
    pub open spec fn maps(&self, service: BoxedService, r: ServiceBuildResult<BoxedService>) -> bool {
        self.mapper().maps(self.src_ty(), self.dest_ty(), service, r)
    }

    /// A mapping from the type filed under `src_ty` to the one filed under
    /// `dest_ty`, through `mapper`.
    pub fn new<TSrc: 'static, TDst: 'static, F>(src_ty: TypeInfo, dest_ty: TypeInfo, mapper: F) -> (r:
        Self) where F: Fn(TSrc) -> ServiceBuildResult<TDst> + Send + Sync + 'static
        requires
            forall|service: TSrc| call_requires(mapper, (service,)),
        ensures
            r.src_ty() == src_ty,
            r.dest_ty() == dest_ty,
            r.mapper() is Convert,
            r.wf(),
            forall|service: BoxedService, out: ServiceBuildResult<BoxedService>|
                #![trigger r.maps(service, out)]
                r.maps(service, out) == converts_as::<TSrc, TDst, F>(
                    mapper,
                    src_ty,
                    dest_ty,
                    service,
                    out,
                ),
    {
        Self { src_ty, dest_ty, mapper: ServiceMapper::new::<TSrc, TDst, F>(mapper) }
    }

    /// The mapping of the type filed under `ty` to itself.
    pub fn identity(ty: TypeInfo) -> (r: Self)
        ensures
            r.src_ty() == ty,
            r.dest_ty() == ty,
            r.mapper() is Identity,
            r.wf(),
    {
        Self { src_ty: ty, dest_ty: ty, mapper: ServiceMapper::Identity }
    }

    /// The key of the source type.
    #[verifier::when_used_as_spec(spec_src_ty)]
    pub fn src_ty(&self) -> (r: TypeInfo)
        ensures
            r == self.src_ty(),
    {
        self.src_ty
    }

    /// The key of the destination type.
    #[verifier::when_used_as_spec(spec_dest_ty)]
    pub fn dest_ty(&self) -> (r: TypeInfo)
        ensures
            r == self.dest_ty(),
    {
        self.dest_ty
    }

    /// Maps a value that was resolved under the source key.
    pub fn map(&self, service: BoxedService) -> (r: ServiceBuildResult<BoxedService>)
        requires
            self.wf(),
            service.ty().same(self.src_ty()),
        ensures
            self.maps(service, r),
            r matches Ok(mapped) ==> mapped.ty().same(self.dest_ty()),
    {
        self.mapper.map(self.src_ty, self.dest_ty, service)
    }
}

/// The mapping layer of a finished container, over its scope layer.
pub struct MappingLayer {
    scope_layer: ScopeLayer,
    mappings: TypeMap<Vec<MappingDescriptor>>,
}

impl MappingLayer {
    /// The scope layer.
    pub closed spec fn scope_layer(&self) -> ScopeLayer {
        self.scope_layer
    }

    /// The mappings of each destination key, in the order of registration.
    pub closed spec fn mappings(&self) -> Map<TypeId, Seq<MappingDescriptor>> {
        Map::new(|id: TypeId| self.mappings@.contains_key(id), |id: TypeId| self.mappings@[id]@)
    }

    /// Every destination key has at least one mapping, and every mapping is
    /// filed under its destination key.
    pub closed spec fn wf(&self) -> bool {
        &&& self.scope_layer.wf()
        &&& self.mappings.wf()
        &&& filed(self.mappings())
    }

    /// What resolving one mapping on `sp` comes to: its source is resolved
    /// through the scope layer, and what comes of that goes through the
    /// mapper; a failure of the source comes back unchanged.
    pub open spec fn resolves_entry(
        &self,
        mapping: MappingDescriptor,
        sp: ServiceProvider,
        r: ServiceBuildResult<BoxedService>,
    ) -> bool {
        exists|got: ServiceBuildResult<BoxedService>|
            #![trigger self.scope_layer().yields(mapping.src_ty(), sp, got)]
            self.scope_layer().yields(mapping.src_ty(), sp, got) && match got {
                Err(error) => r == Err::<BoxedService, ServiceBuildError>(error),
                Ok(service) => mapping.maps(service, r),
            }
    }

    /// What resolving `ty` on `sp` comes to: `MappingNotFound` where nothing
    /// is registered under `ty`, and otherwise what the first mapping gives.
    pub open spec fn resolves(
        &self,
        ty: TypeInfo,
        sp: ServiceProvider,
        r: ServiceBuildResult<BoxedService>,
    ) -> bool {
        if self.mappings().contains_key(ty.id) {
            self.resolves_entry(self.mappings()[ty.id][0], sp, r)
        } else {
            r == Err::<BoxedService, ServiceBuildError>(ServiceBuildError::MappingNotFound { ty })
        }
    }

    /// What resolving every mapping of `ty` on `sp` comes to:
    /// `MappingNotFound` where nothing is registered under `ty`; otherwise
    /// one value for each mapping, in the order of registration, or the
    /// failure of the first mapping that fails.
    pub open spec fn resolves_all(
        &self,
        ty: TypeInfo,
        sp: ServiceProvider,
        r: ServiceBuildResult<Vec<BoxedService>>,
    ) -> bool {
        if self.mappings().contains_key(ty.id) {
            let entries = self.mappings()[ty.id];
            match r {
                Ok(services) => {
                    &&& services@.len() == entries.len()
                    &&& forall|i: int|
                        0 <= i < entries.len() ==> #[trigger] self.resolves_entry(
                            entries[i],
                            sp,
                            Ok(services@[i]),
                        )
                },
                Err(error) => exists|i: int| #[trigger] self.fails_at(entries, sp, i, error),
            }
        } else {
            r == Err::<Vec<BoxedService>, ServiceBuildError>(
                ServiceBuildError::MappingNotFound { ty },
            )
        }
    }

    /// Whether `error` is the failure of the mapping at `i`, the first of
    /// `entries` that fails.
    pub open spec fn fails_at(
        &self,
        entries: Seq<MappingDescriptor>,
        sp: ServiceProvider,
        i: int,
        error: ServiceBuildError,
    ) -> bool {
        &&& 0 <= i < entries.len()
        &&& self.resolves_entry(entries[i], sp, Err(error))
        &&& forall|j: int| 0 <= j < i ==> #[trigger] self.succeeds(entries[j], sp)
    }

    /// Whether resolving the mapping on `sp` can give a value.
    pub open spec fn succeeds(&self, mapping: MappingDescriptor, sp: ServiceProvider) -> bool {
        exists|service: BoxedService| #[trigger] self.resolves_entry(mapping, sp, Ok(service))
    }

    /// Resolves one mapping.
    fn resolve_entry(&self, mapping: &MappingDescriptor, sp: ServiceProvider) -> (r:
        ServiceBuildResult<BoxedService>)
        requires
            self.wf(),
            mapping.wf(),
        ensures
            self.resolves_entry(*mapping, sp, r),
            r matches Ok(service) ==> service.ty().same(mapping.dest_ty()),
    {
        let got = self.scope_layer.get(mapping.src_ty(), sp);
        assert(self.scope_layer().yields(mapping.src_ty(), sp, got));
        match got {
            Err(error) => Err(error),
            Ok(service) => mapping.map(service),
        }
    }

    /// Resolves the service filed under `ty`.
    pub fn resolve_raw(&self, ty: TypeInfo, sp: ServiceProvider) -> (r: ServiceBuildResult<
        BoxedService,
    >)
        requires
            self.wf(),
        ensures
            self.resolves(ty, sp, r),
            r matches Ok(service) ==> service.ty().same(ty),
    {
        let mappings = match self.mappings.get(&ty) {
            Some(mappings) => mappings,
            None => {
                return Err(ServiceBuildError::MappingNotFound { ty });
            },
        };
        assert(self.mappings().contains_key(ty.id));
        assert(self.mappings()[ty.id] == mappings@);
        let mapping = &mappings[0];
        self.resolve_entry(mapping, sp)
    }

    /// Resolves the service of the type `TService`.
    pub fn resolve<TService: 'static>(&self, sp: ServiceProvider) -> (r: ServiceBuildResult<
        TService,
    >)
        requires
            self.wf(),
        ensures
            exists|ty: TypeInfo, raw: ServiceBuildResult<BoxedService>|
                #![trigger self.resolves(ty, sp, raw)]
                ty.is_key_of::<TService>() && self.resolves(ty, sp, raw) && typed::<TService>(
                    ty,
                    raw,
                    r,
                ),
    {
        let ty = TService::type_info();
        let raw = self.resolve_raw(ty, sp);
        let r = take::<TService>(ty, raw);
        assert(ty.is_key_of::<TService>() && self.resolves(ty, sp, raw) && typed::<TService>(
            ty,
            raw,
            r,
        ));
        r
    }

    /// Resolves every service filed under `ty`, in the order in which the
    /// mappings were registered.
    pub fn resolve_all_raw(&self, ty: TypeInfo, sp: ServiceProvider) -> (r: ServiceBuildResult<
        Vec<BoxedService>,
    >)
        requires
            self.wf(),
        ensures
            self.resolves_all(ty, sp, r),
            r matches Ok(services) ==> forall|i: int|
                0 <= i < services@.len() ==> (#[trigger] services@[i]).ty().same(ty),
    {
        let mappings = match self.mappings.get(&ty) {
            Some(mappings) => mappings,
            None => {
                return Err(ServiceBuildError::MappingNotFound { ty });
            },
        };
        assert(self.mappings().contains_key(ty.id));
        assert(self.mappings()[ty.id] == mappings@);
        let mut services: Vec<BoxedService> = Vec::new();
        let mut i: usize = 0;
        while i < mappings.len()
            invariant
                self.wf(),
                self.mappings().contains_key(ty.id),
                self.mappings()[ty.id] == mappings@,
                i <= mappings.len(),
                services@.len() == i,
                forall|j: int|
                    0 <= j < i ==> #[trigger] self.resolves_entry(mappings@[j], sp, Ok(services@[j])),
                forall|j: int| 0 <= j < i ==> (#[trigger] services@[j]).ty().same(ty),
            decreases mappings.len() - i,
        {
            let mapping = &mappings[i];
            match self.resolve_entry(mapping, sp.clone()) {
                Ok(service) => {
                    services.push(service);
                },
                Err(error) => {
                    assert(self.resolves_entry(mappings@[i as int], sp, Err(error)));
                    assert forall|j: int| 0 <= j < i implies #[trigger] self.succeeds(
                        mappings@[j],
                        sp,
                    ) by {
                        assert(self.resolves_entry(mappings@[j], sp, Ok(services@[j])));
                    }
                    assert(self.fails_at(mappings@, sp, i as int, error));
                    return Err(error);
                },
            }
            i = i + 1;
        }
        Ok(services)
    }

    /// Resolves every service of the type `TService`.
    pub fn resolve_all<TService: 'static>(&self, sp: ServiceProvider) -> (r: ServiceBuildResult<
        Vec<TService>,
    >)
        requires
            self.wf(),
        ensures
            exists|ty: TypeInfo, raw: ServiceBuildResult<Vec<BoxedService>>|
                #![trigger self.resolves_all(ty, sp, raw)]
                ty.is_key_of::<TService>() && self.resolves_all(ty, sp, raw) && typed_all::<
                    TService,
                >(ty, raw, r),
    {
        let ty = TService::type_info();
        let raw = self.resolve_all_raw(ty, sp);
        let r = take_all::<TService>(ty, raw);
        assert(ty.is_key_of::<TService>() && self.resolves_all(ty, sp, raw) && typed_all::<
            TService,
        >(ty, raw, r));
        r
    }

    /// Freezes what the builder holds, over the scope layer.
    fn new(builder: MappingLayerBuilder, scope_layer: ScopeLayer) -> (r: Self)
        requires
            builder.wf(),
            scope_layer.wf(),
        ensures
            r.wf(),
            r.mappings() == builder@,
            r.scope_layer() == scope_layer,
    {
        let r = MappingLayer { scope_layer, mappings: builder.mappings };
        assert(r.mappings() =~= builder@);
        r
    }
}

/// Every list has at least one mapping, and every mapping is filed under its
/// destination key.
pub open spec fn filed(mappings: Map<TypeId, Seq<MappingDescriptor>>) -> bool {
    forall|id: TypeId| #[trigger]
        mappings.contains_key(id) ==> mappings[id].len() > 0 && forall|i: int|
            0 <= i < mappings[id].len() ==> (#[trigger] mappings[id][i]).wf()
                && mappings[id][i].dest_ty().id == id
}

/// What a typed resolution makes of an erased one: a failure comes back
/// unchanged; a value comes out as a `TService` where it is one, and is
/// refused with the key asked for and the key found where it is not.
pub open spec fn typed<TService: 'static>(
    ty: TypeInfo,
    raw: ServiceBuildResult<BoxedService>,
    r: ServiceBuildResult<TService>,
) -> bool {
    match raw {
        Err(error) => r == Err::<TService, ServiceBuildError>(error),
        Ok(service) => match r {
            Ok(value) => is_id_of::<TService>(service.held()) && taken::<TService>(service, value),
            Err(error) => error == (ServiceBuildError::InvalidMappingLayerBoxedOutputType {
                expected: ty,
                found: service.ty(),
            }) && !is_id_of::<TService>(service.held()) && forall|value: TService|
                !#[trigger] service.holds(value),
        },
    }
}

/// Whether `value` is what `service` holds: it holds `value`, and nothing
/// else of that type.
pub open spec fn taken<TService: 'static>(service: BoxedService, value: TService) -> bool {
    service.holds(value) && forall|held: TService| #[trigger] service.holds(held) ==> held == value
}

/// What a typed resolution makes of a list of erased values: each comes out
/// as a `TService`, in order; the first that is none is refused.
pub open spec fn typed_all<TService: 'static>(
    ty: TypeInfo,
    raw: ServiceBuildResult<Vec<BoxedService>>,
    r: ServiceBuildResult<Vec<TService>>,
) -> bool {
    match raw {
        Err(error) => r == Err::<Vec<TService>, ServiceBuildError>(error),
        Ok(services) => match r {
            Ok(values) => all_taken::<TService>(services@, values@),
            Err(error) => exists|i: int| #[trigger] refused_at::<TService>(ty, services@, i, error),
        },
    }
}

/// Whether `values` are what `services` hold, one for one.
pub open spec fn all_taken<TService: 'static>(
    services: Seq<BoxedService>,
    values: Seq<TService>,
) -> bool {
    values.len() == services.len() && forall|i: int|
        0 <= i < services.len() ==> taken::<TService>(#[trigger] services[i], values[i])
}

/// Whether the value at `i` is refused with `error`.
pub open spec fn refused_at<TService: 'static>(
    ty: TypeInfo,
    services: Seq<BoxedService>,
    i: int,
    error: ServiceBuildError,
) -> bool {
    0 <= i < services.len() && typed::<TService>(
        ty,
        Ok(services[i]),
        Err::<TService, ServiceBuildError>(error),
    )
}

/// Takes the value of a resolution out as a `TService`.
pub fn take<TService: 'static>(ty: TypeInfo, raw: ServiceBuildResult<BoxedService>) -> (r:
    ServiceBuildResult<TService>)
    ensures
        typed::<TService>(ty, raw, r),
{
    match raw {
        Err(error) => Err(error),
        Ok(service) => {
            let found = service.ty();
            match service.unbox::<TService>() {
                Ok(value) => Ok(value),
                Err(_) => Err(
                    ServiceBuildError::InvalidMappingLayerBoxedOutputType { expected: ty, found },
                ),
            }
        },
    }
}

/// A typed resolution gives the value that the resolved container holds:
/// where the container holds `value`, what comes out is `value`.
pub proof fn lemma_take_gives_what_is_held<TService: 'static>(
    ty: TypeInfo,
    service: BoxedService,
    value: TService,
    r: ServiceBuildResult<TService>,
)
    requires
        service.holds(value),
        typed::<TService>(ty, Ok::<BoxedService, ServiceBuildError>(service), r),
    ensures
        r == Ok::<TService, ServiceBuildError>(value),
{
}

/// A list with a value that is refused is refused with the error of that
/// value.
proof fn lemma_refused<TService: 'static>(
    ty: TypeInfo,
    held: Vec<BoxedService>,
    error: ServiceBuildError,
    at: int,
)
    requires
        refused_at::<TService>(ty, held@, at, error),
    ensures
        typed_all::<TService>(
            ty,
            Ok::<Vec<BoxedService>, ServiceBuildError>(held),
            Err::<Vec<TService>, ServiceBuildError>(error),
        ),
{
    let raw: ServiceBuildResult<Vec<BoxedService>> = Ok(held);
    let r: ServiceBuildResult<Vec<TService>> = Err(error);
    assert(raw->Ok_0 == held);
    assert(r->Err_0 == error);
    assert(refused_at::<TService>(ty, raw->Ok_0@, at, r->Err_0));
}

/// Takes the values of a resolution out as `TService`s, in order.
pub fn take_all<TService: 'static>(ty: TypeInfo, raw: ServiceBuildResult<Vec<BoxedService>>) -> (r:
    ServiceBuildResult<Vec<TService>>)
    ensures
        typed_all::<TService>(ty, raw, r),
{
    let services = match raw {
        Err(error) => {
            return Err(error);
        },
        Ok(services) => services,
    };
    let ghost held = services;
    let ghost all = services@;
    let mut values: Vec<TService> = Vec::new();
    for service in iter: services
        invariant
            raw == Ok::<Vec<BoxedService>, ServiceBuildError>(held),
            held@ == all,
            iter.seq() == all,
            values@.len() == iter.index(),
            forall|j: int| 0 <= j < iter.index() ==> taken::<TService>(#[trigger] all[j], values@[j]),
    {
        let ghost at = iter.index();
        match take::<TService>(ty, Ok(service)) {
            Ok(value) => {
                values.push(value);
            },
            Err(error) => {
                proof {
                    lemma_refused::<TService>(ty, held, error, at as int);
                }
                return Err(error);
            },
        }
    }
    Ok(values)
}

/// Whether `mapping` converts by `mapper`.
pub open spec fn converted_by<TSrc: 'static, TDst: 'static, F: Fn(TSrc) -> ServiceBuildResult<TDst>>(
    mapping: MappingDescriptor,
    mapper: F,
) -> bool {
    forall|service: BoxedService, out: ServiceBuildResult<BoxedService>|
        #![trigger mapping.maps(service, out)]
        mapping.maps(service, out) == converts_as::<TSrc, TDst, F>(
            mapper,
            mapping.src_ty(),
            mapping.dest_ty(),
            service,
            out,
        )
}

/// The mapping layer while registrations are taken.
pub struct MappingLayerBuilder {
    mappings: TypeMap<Vec<MappingDescriptor>>,
}

impl View for MappingLayerBuilder {
    type V = Map<TypeId, Seq<MappingDescriptor>>;

    closed spec fn view(&self) -> Map<TypeId, Seq<MappingDescriptor>> {
        Map::new(|id: TypeId| self.mappings@.contains_key(id), |id: TypeId| self.mappings@[id]@)
    }
}

impl MappingLayerBuilder {
    /// Every destination key has at least one mapping, and every mapping is
    /// filed under its destination key.
    pub closed spec fn wf(&self) -> bool {
        &&& self.mappings.wf()
        &&& filed(self@)
    }

    /// Whether `self` is `before` with `mapping` at the end of the list of
    /// its destination key, after all that was registered there.
    pub open spec fn added(&self, before: Self, mapping: MappingDescriptor) -> bool {
        let id = mapping.dest_ty().id;
        &&& self@.dom() == before@.dom().insert(id)
        &&& self@[id] == (if before@.contains_key(id) {
            before@[id]
        } else {
            Seq::empty()
        }).push(mapping)
        &&& forall|other: TypeId| other != id && before@.contains_key(other) ==> self@[other] == before@[other]
    }

    /// A layer without mappings.
    pub fn new() -> (r: Self)
        ensures
            r.wf(),
            r@ == Map::<TypeId, Seq<MappingDescriptor>>::empty(),
    {
        let r = Self { mappings: TypeMap::new() };
        assert(r@ =~= Map::<TypeId, Seq<MappingDescriptor>>::empty());
        r
    }

    /// Files `mapping` under its destination key, after the mappings that
    /// were registered there before.
    fn add(&mut self, mapping: MappingDescriptor)
        requires
            old(self).wf(),
            mapping.wf(),
        ensures
            final(self).wf(),
            final(self).added(*old(self), mapping),
    {
        let dest = mapping.dest_ty();
        let mut list = match self.mappings.insert(dest, Vec::new()) {
            Some(list) => list,
            None => Vec::new(),
        };
        let ghost before = list@;
        assert(before == (if old(self)@.contains_key(dest.id) {
            old(self)@[dest.id]
        } else {
            Seq::empty()
        }));
        list.push(mapping);
        self.mappings.insert(dest, list);
        assert(self@.dom() =~= old(self)@.dom().insert(dest.id));
        assert(self@[dest.id] == before.push(mapping));
        assert forall|id: TypeId| #[trigger] self@.contains_key(id) implies self@[id].len() > 0
            && forall|i: int|
            0 <= i < self@[id].len() ==> (#[trigger] self@[id][i]).wf() && self@[id][i].dest_ty().id
                == id by {
            if id != dest.id {
                assert(old(self)@.contains_key(id));
                assert(self@[id] == old(self)@[id]);
            } else {
                if old(self)@.contains_key(id) {
                    assert(before == old(self)@[id]);
                }
            }
        }
    }

    /// Registers `mapper` as a way from the type filed under `src_ty` to the
    /// one filed under `dest_ty`.
    pub fn add_mapping<TSrc: 'static, TDst: 'static, F>(
        &mut self,
        src_ty: TypeInfo,
        dest_ty: TypeInfo,
        mapper: F,
    ) where F: Fn(TSrc) -> ServiceBuildResult<TDst> + Sync + Send + 'static
        requires
            old(self).wf(),
            forall|service: TSrc| call_requires(mapper, (service,)),
        ensures
            final(self).wf(),
            exists|mapping: MappingDescriptor|
                #![trigger final(self).added(*old(self), mapping)]
                final(self).added(*old(self), mapping) && mapping.src_ty() == src_ty
                    && mapping.dest_ty() == dest_ty && mapping.mapper() is Convert
                    && converted_by::<TSrc, TDst, F>(mapping, mapper),
    {
        let mapping = MappingDescriptor::new::<TSrc, TDst, F>(src_ty, dest_ty, mapper);
        self.add(mapping);
        assert(self.added(*old(self), mapping));
    }

    /// Whether `self` is `before` with the mapping of the type filed under
    /// `ty` to itself at the end of the mappings of that key.
    pub open spec fn identity_added(&self, before: Self, ty: TypeInfo) -> bool {
        exists|mapping: MappingDescriptor|
            #![trigger self.added(before, mapping)]
            self.added(before, mapping) && mapping.src_ty() == ty && mapping.dest_ty() == ty
                && mapping.mapper() is Identity
    }

    /// Registers the type filed under `ty` as a way to itself.
    pub fn add_identity(&mut self, ty: TypeInfo)
        requires
            old(self).wf(),
        ensures
            final(self).wf(),
            final(self).identity_added(*old(self), ty),
    {
        let mapping = MappingDescriptor::identity(ty);
        self.add(mapping);
        assert(self.added(*old(self), mapping));
    }

    /// Freezes the layer over the scope layer.
    pub fn build(self, scope_layer: ScopeLayer) -> (r: MappingLayer)
        requires
            self.wf(),
            scope_layer.wf(),
        ensures
            r.wf(),
            r.mappings() == self@,
            r.scope_layer() == scope_layer,
    {
        MappingLayer::new(self, scope_layer)
    }
}

/// A mapping that hands the value on as it is adds nothing to the scope
/// layer: resolving it comes to what resolving its source comes to.
pub proof fn lemma_identity_adds_nothing(
    layers: MappingLayer,
    mapping: MappingDescriptor,
    sp: ServiceProvider,
    r: ServiceBuildResult<BoxedService>,
)
    requires
        mapping.mapper() is Identity,
    ensures
        layers.resolves_entry(mapping, sp, r) <==> layers.scope_layer().yields(
            mapping.src_ty(),
            sp,
            r,
        ),
{
    if layers.scope_layer().yields(mapping.src_ty(), sp, r) {
        assert(layers.resolves_entry(mapping, sp, r));
    }
}

/// Resolving all the services of a destination key gives one value for each
/// mapping of the key, in the order of registration: the mapping that was
/// registered last gives the last value, and the values before it come of
/// the mappings that stood there before, each from its own source.
pub proof fn lemma_resolve_all_in_registration_order(
    before: MappingLayerBuilder,
    after: MappingLayerBuilder,
    mapping: MappingDescriptor,
    layers: MappingLayer,
    sp: ServiceProvider,
    services: Vec<BoxedService>,
)
    requires
        after.added(before, mapping),
        layers.mappings() == after@,
        layers.resolves_all(
            mapping.dest_ty(),
            sp,
            Ok::<Vec<BoxedService>, ServiceBuildError>(services),
        ),
    ensures
        services@.len() == registered_under(before@, mapping.dest_ty()).len() + 1,
        layers.resolves_entry(mapping, sp, Ok(services@.last())),
        forall|i: int|
            0 <= i < registered_under(before@, mapping.dest_ty()).len()
                ==> #[trigger] layers.resolves_entry(
                registered_under(before@, mapping.dest_ty())[i],
                sp,
                Ok(services@[i]),
            ),
{
    let id = mapping.dest_ty().id;
    let earlier = registered_under(before@, mapping.dest_ty());
    let entries = layers.mappings()[id];
    let raw = Ok::<Vec<BoxedService>, ServiceBuildError>(services);
    assert(raw->Ok_0 == services);
    assert(after@.dom().contains(id));
    assert(entries == earlier.push(mapping));
    assert(entries[entries.len() - 1] == mapping);
    assert(layers.resolves_entry(entries[entries.len() - 1], sp, Ok(services@[entries.len() - 1])));
    assert forall|i: int| 0 <= i < earlier.len() implies #[trigger] layers.resolves_entry(
        earlier[i],
        sp,
        Ok(services@[i]),
    ) by {
        assert(entries[i] == earlier[i]);
        assert(layers.resolves_entry(entries[i], sp, Ok(services@[i])));
    }
}

/// The mappings filed under the destination `ty`, in the order of
/// registration; none where the key has no registration.
pub open spec fn registered_under(
    mappings: Map<TypeId, Seq<MappingDescriptor>>,
    ty: TypeInfo,
) -> Seq<MappingDescriptor> {
    if mappings.contains_key(ty.id) {
        mappings[ty.id]
    } else {
        Seq::empty()
    }
}

/// A destination whose first mapping converts a transient source resolves
/// to what the converter makes of what the constructor function of the source
/// gives; a failure of either function comes out unchanged.
pub proof fn lemma_mapped_resolves_through_the_mapper<
    TSrc: 'static,
    TDst: 'static,
    F: Fn(ServiceProvider) -> ServiceBuildResult<TSrc>,
    M: Fn(TSrc) -> ServiceBuildResult<TDst>,
>(
    layers: MappingLayer,
    src: TypeInfo,
    dest: TypeInfo,
    factory: F,
    mapper: M,
    asked: TypeInfo,
    sp: ServiceProvider,
    raw: ServiceBuildResult<BoxedService>,
    r: ServiceBuildResult<TDst>,
)
    requires
        asked.same(dest),
        layers.mappings().contains_key(dest.id),
        layers.mappings()[dest.id][0].src_ty() == src,
        layers.mappings()[dest.id][0].dest_ty() == dest,
        converted_by::<TSrc, TDst, M>(layers.mappings()[dest.id][0], mapper),
        layers.scope_layer().scopes().contains_key(src.id),
        layers.scope_layer().scopes()[src.id].scope().kind() == ScopeKind::Transient,
        layers.scope_layer().services().contains_key(src.id),
        layers.scope_layer().services()[src.id].ty() == src,
        forall|out: ServiceBuildResult<BoxedService>|
            #![trigger layers.scope_layer().services()[src.id].builds(sp, out)]
            layers.scope_layer().services()[src.id].builds(sp, out) == constructs_as::<TSrc, F>(
                factory,
                src,
                sp,
                out,
            ),
        layers.resolves(asked, sp, raw),
        typed::<TDst>(asked, raw, r),
    ensures
        exists|made: ServiceBuildResult<TSrc>|
            #![trigger call_ensures(factory, (sp,), made)]
            call_ensures(factory, (sp,), made) && match made {
                Err(error) => r == Err::<TDst, ServiceBuildError>(error),
                Ok(value) => call_ensures(mapper, (value,), r),
            },
{
    let first = layers.mappings()[dest.id][0];
    let descriptor = layers.scope_layer().services()[src.id];
    let got = choose|got: ServiceBuildResult<BoxedService>|
        #![trigger layers.scope_layer().yields(first.src_ty(), sp, got)]
        layers.scope_layer().yields(first.src_ty(), sp, got) && match got {
            Err(error) => raw == Err::<BoxedService, ServiceBuildError>(error),
            Ok(service) => first.maps(service, raw),
        };
    lemma_transient_rebuilds(layers.scope_layer().scopes()[src.id], descriptor, sp, got);
    assert(descriptor.builds(sp, got));
    assert(constructs_as::<TSrc, F>(factory, src, sp, got));
    let made = choose|made: ServiceBuildResult<TSrc>|
        #![trigger call_ensures(factory, (sp,), made)]
        call_ensures(factory, (sp,), made) && match made {
            Ok(service) => got matches Ok(boxed) && boxed.ty() == src && boxed.holds(service),
            Err(error) => got == Err::<BoxedService, ServiceBuildError>(error),
        };
    match made {
        Err(error) => {
            assert(r == Err::<TDst, ServiceBuildError>(error));
        },
        Ok(value) => {
            let boxed = got->Ok_0;
            assert(first.maps(boxed, raw));
            assert(converts_as::<TSrc, TDst, M>(mapper, src, dest, boxed, raw));
            assert(boxed.holds(value));
            let out = choose|out: ServiceBuildResult<TDst>|
                #![trigger call_ensures(mapper, (value,), out)]
                call_ensures(mapper, (value,), out) && match out {
                    Ok(mapped) => raw matches Ok(wrapped) && wrapped.ty() == dest && wrapped.holds(
                        mapped,
                    ),
                    Err(error) => raw == Err::<BoxedService, ServiceBuildError>(error),
                };
            assert(r == out);
        },
    }
    assert(call_ensures(factory, (sp,), made));
}

} // verus!
