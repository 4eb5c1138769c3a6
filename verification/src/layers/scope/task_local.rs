//! The task-scoped policy: one cached instance for each task scope.

use super::lock::{instances_new, lock, mutex_new, slot, state, Instances};
use super::methods::{
    sync_splits_as, syncs_as, unsyncs_as, Erased, SyncSplitter, Syncer, TypedSteps, UnSyncer,
};
use crate::layers::service::{constructs_as, ServiceDescriptior};
use crate::types::boxed_service::BoxedService;
use crate::types::boxed_service_sync::SyncBoxedService;
use crate::types::error::{ServiceBuildError, ServiceBuildResult};
use crate::types::type_info::TypeInfo;
use crate::ServiceProvider;
use std::sync::Arc;
use vstd::prelude::*;

verus! {

/// The three steps between a constructor and a cache of thread-safe values:
/// take a fresh value into thread-safe form, split a copy off the cached
/// value, and take the copy out of thread-safe form.
pub struct TaskLocalCtrMethods {
    syncer: Erased<dyn Syncer>,
    splitter: Erased<dyn SyncSplitter>,
    unsyncer: Erased<dyn UnSyncer>,
}

impl TaskLocalCtrMethods {
    /// Whether `r` is what taking `service` into thread-safe form can come
    /// back with.
    pub closed spec fn syncs(
        &self,
        expected: TypeInfo,
        service: BoxedService,
        r: ServiceBuildResult<SyncBoxedService>,
    ) -> bool {
        self.syncer.step.syncs(expected, service, r)
    }

    /// Whether `r` is what splitting a copy off `service` can come back with.
    pub closed spec fn splits(
        &self,
        expected: TypeInfo,
        service: SyncBoxedService,
        r: ServiceBuildResult<SyncBoxedService>,
    ) -> bool {
        self.splitter.step.splits(expected, service, r)
    }

    /// Whether `r` is what taking `service` out of thread-safe form can come
    /// back with.
    pub closed spec fn unsyncs(
        &self,
        expected: TypeInfo,
        service: SyncBoxedService,
        r: ServiceBuildResult<BoxedService>,
    ) -> bool {
        self.unsyncer.step.unsyncs(expected, service, r)
    }

    /// What is left of a resolution once the instance is at hand: a copy is
    /// split off it and taken out of thread-safe form, under the key of the
    /// instance. An instance under a foreign key is refused before any step
    /// runs. The instance itself stays as it is.
    pub open spec fn hands_out(
        &self,
        ty: TypeInfo,
        instance: SyncBoxedService,
        r: ServiceBuildResult<BoxedService>,
    ) -> bool {
        if !instance.ty().same(ty) {
            r == Err::<BoxedService, ServiceBuildError>(
                ServiceBuildError::UnexpectedSingletoneSplitterParams {
                    expected: ty,
                    found: instance.ty(),
                },
            )
        } else {
            exists|split: ServiceBuildResult<SyncBoxedService>|
                #![trigger self.splits(ty, instance, split)]
                self.splits(ty, instance, split) && match split {
                    Err(error) => error == (ServiceBuildError::UnexpectedSingletoneSplitterParams {
                        expected: ty,
                        found: instance.ty(),
                    }) && r == Err::<BoxedService, ServiceBuildError>(error),
                    Ok(copy) => copy.ty() == instance.ty() && exists|
                        out: ServiceBuildResult<BoxedService>,
                    |
                        #![trigger self.unsyncs(ty, copy, out)]
                        self.unsyncs(ty, copy, out) && r == out && match out {
                            Err(error) => error == (
                            ServiceBuildError::InvalidScopeLayerBoxedOutputType {
                                expected: ty,
                                found: copy.ty(),
                            }),
                            Ok(plain) => plain.ty() == copy.ty(),
                        },
                }
        }
    }

    /// One resolution against a cache. With an instance cached, the
    /// constructor is not called: a copy is split off the instance, which
    /// stays cached whatever comes of the copy. With none, the constructor is
    /// called once and its value taken into thread-safe form; it is cached
    /// if a copy of it could be handed out, and nothing is cached otherwise.
    pub open spec fn produces(
        &self,
        cached: Option<SyncBoxedService>,
        descriptor: ServiceDescriptior,
        sp: ServiceProvider,
        next: Option<SyncBoxedService>,
        r: ServiceBuildResult<BoxedService>,
    ) -> bool {
        match cached {
            Some(instance) => next == cached && self.hands_out(descriptor.ty(), instance, r),
            None => exists|built: ServiceBuildResult<BoxedService>|
                #![trigger descriptor.builds(sp, built)]
                descriptor.builds(sp, built) && match built {
                    Err(error) => next is None && r == Err::<BoxedService, ServiceBuildError>(
                        error,
                    ),
                    Ok(service) => service.ty() == descriptor.ty() && exists|
                        synced: ServiceBuildResult<SyncBoxedService>,
                    |
                        #![trigger self.syncs(descriptor.ty(), service, synced)]
                        self.syncs(descriptor.ty(), service, synced) && match synced {
                            Err(error) => error == (
                            ServiceBuildError::InvalidScopeLayerBoxedInputType {
                                expected: descriptor.ty(),
                                found: service.ty(),
                            }) && next is None && r == Err::<BoxedService, ServiceBuildError>(
                                error,
                            ),
                            Ok(instance) => instance.ty() == service.ty() && self.hands_out(
                                descriptor.ty(),
                                instance,
                                r,
                            ) && next == (if r is Ok {
                                Some(instance)
                            } else {
                                None
                            }),
                        },
                },
        }
    }

    /// Whether the three steps are those for values of the type `TService`.
    pub open spec fn is_typed<TService: 'static + Sync + Send + Clone>(&self) -> bool {
        &&& forall|expected: TypeInfo, service: BoxedService, out: ServiceBuildResult<SyncBoxedService>|
            #![trigger self.syncs(expected, service, out)]
            self.syncs(expected, service, out) == syncs_as::<TService>(expected, service, out)
        &&& forall|
            expected: TypeInfo,
            service: SyncBoxedService,
            out: ServiceBuildResult<SyncBoxedService>,
        |
            #![trigger self.splits(expected, service, out)]
            self.splits(expected, service, out) == sync_splits_as::<TService>(
                expected,
                service,
                out,
            )
        &&& forall|expected: TypeInfo, service: SyncBoxedService, out: ServiceBuildResult<BoxedService>|
            #![trigger self.unsyncs(expected, service, out)]
            self.unsyncs(expected, service, out) == unsyncs_as::<TService>(expected, service, out)
    }

    /// Puts the three steps together.
    pub fn new(
        syncer: Box<dyn Syncer>,
        splitter: Box<dyn SyncSplitter>,
        unsyncer: Box<dyn UnSyncer>,
    ) -> (r: Self)
        ensures
            forall|expected: TypeInfo, service: BoxedService, out: ServiceBuildResult<SyncBoxedService>|
                #![trigger r.syncs(expected, service, out)]
                r.syncs(expected, service, out) == syncer.syncs(expected, service, out),
            forall|
                expected: TypeInfo,
                service: SyncBoxedService,
                out: ServiceBuildResult<SyncBoxedService>,
            |
                #![trigger r.splits(expected, service, out)]
                r.splits(expected, service, out) == splitter.splits(expected, service, out),
            forall|expected: TypeInfo, service: SyncBoxedService, out: ServiceBuildResult<BoxedService>|
                #![trigger r.unsyncs(expected, service, out)]
                r.unsyncs(expected, service, out) == unsyncer.unsyncs(expected, service, out),
    {
        let syncer = Erased { step: syncer };
        let splitter = Erased { step: splitter };
        let unsyncer = Erased { step: unsyncer };
        Self { syncer, splitter, unsyncer }
    }

    /// The three steps for values of the type `TService`.
    pub fn typed<TService: 'static + Sync + Send + Clone>() -> (r: Self)
        ensures
            r.is_typed::<TService>(),
    {
        Self::new(
            Box::new(TypedSteps::<TService>::new()),
            Box::new(TypedSteps::<TService>::new()),
            Box::new(TypedSteps::<TService>::new()),
        )
    }

    /// Splits a copy off `instance` and takes it out of thread-safe form.
    fn hand_out(&self, ty: TypeInfo, instance: &SyncBoxedService) -> (r: ServiceBuildResult<
        BoxedService,
    >)
        ensures
            self.hands_out(ty, *instance, r),
            r matches Ok(copy) ==> copy.ty().same(ty),
    {
        let found = instance.ty();
        if found != ty {
            return Err(
                ServiceBuildError::UnexpectedSingletoneSplitterParams { expected: ty, found },
            );
        }
        let split = self.splitter.step.split(ty, instance);
        assert(self.splits(ty, *instance, split));
        match split {
            Err(error) => Err(error),
            Ok(copy) => {
                let out = self.unsyncer.step.unsync(ty, copy);
                assert(self.unsyncs(ty, copy, out));
                out
            },
        }
    }

    /// One resolution against `cached`: the cache to keep from now on, and
    /// what the caller gets.
    pub fn produce(
        &self,
        cached: Option<SyncBoxedService>,
        descriptor: &ServiceDescriptior,
        sp: ServiceProvider,
    ) -> (r: (Option<SyncBoxedService>, ServiceBuildResult<BoxedService>))
        ensures
            self.produces(cached, *descriptor, sp, r.0, r.1),
            r.1 matches Ok(copy) ==> copy.ty().same(descriptor.ty()),
            r.1 is Ok ==> r.0 is Some,
            r.1 is Err ==> r.0 == cached,
            cached is Some ==> r.0 == cached,
            cached is None ==> (r.0 matches Some(kept) ==> kept.ty() == descriptor.ty()),
    {
        let ty = descriptor.ty();
        match cached {
            Some(instance) => {
                let r = self.hand_out(ty, &instance);
                (Some(instance), r)
            },
            None => {
                let built = descriptor.build(sp);
                assert(descriptor.builds(sp, built));
                match built {
                    Err(error) => (None, Err(error)),
                    Ok(service) => {
                        let synced = self.syncer.step.sync(ty, service);
                        assert(self.syncs(ty, service, synced));
                        match synced {
                            Err(error) => (None, Err(error)),
                            Ok(instance) => {
                                let r = self.hand_out(ty, &instance);
                                match r {
                                    Ok(copy) => (Some(instance), Ok(copy)),
                                    Err(error) => (None, Err(error)),
                                }
                            },
                        }
                    },
                }
            },
        }
    }
}

/// What a task scope caches for one type key.
pub enum TaskLocalProducer {
    /// Nothing was built yet.
    Pending,
    /// The instance that every later resolution is split from.
    Created { instance: SyncBoxedService },
}

impl TaskLocalProducer {
    /// The cached instance, if there is one.
    pub open spec fn cached(self) -> Option<SyncBoxedService> {
        match self {
            TaskLocalProducer::Pending => None,
            TaskLocalProducer::Created { instance } => Some(instance),
        }
    }

    /// Resolves once against this cache and keeps what is to be cached from
    /// now on.
    pub fn produce(
        &mut self,
        service_descriptor: &ServiceDescriptior,
        sp: ServiceProvider,
        ctr_methods: &TaskLocalCtrMethods,
    ) -> (r: ServiceBuildResult<BoxedService>)
        ensures
            ctr_methods.produces(
                old(self).cached(),
                *service_descriptor,
                sp,
                final(self).cached(),
                r,
            ),
            r matches Ok(copy) ==> copy.ty().same(service_descriptor.ty()),
            r is Ok ==> *final(self) is Created,
            r is Err ==> *final(self) == *old(self),
            *old(self) is Created ==> *final(self) == *old(self),
            *old(self) is Pending ==> (final(self).cached() matches Some(kept) ==> kept.ty()
                == service_descriptor.ty()),
    {
        let mut old_val = TaskLocalProducer::Pending;
        core::mem::swap(self, &mut old_val);
        let cached = match old_val {
            TaskLocalProducer::Pending => None,
            TaskLocalProducer::Created { instance } => Some(instance),
        };
        let (next, r) = ctr_methods.produce(cached, service_descriptor, sp);
        match next {
            Some(instance) => {
                *self = TaskLocalProducer::Created { instance };
            },
            None => {},
        }
        r
    }
}

/// The registry of one task scope: its cached instances, each behind a lock
/// of its own.
pub struct TaskLocalCtx {
    instances: Instances<TaskLocalProducer>,
}

impl TaskLocalCtx {
    /// Whether the registry is one that `new` gave. This says where the
    /// registry came from, not what it holds: it stays so after instances
    /// were cached in it.
    pub open spec fn is_new(&self) -> bool {
        call_ensures(Self::new, (), *self)
    }

    /// A registry that caches nothing yet.
    pub fn new() -> Self {
        Self { instances: instances_new() }
    }

    /// What a task-scoped resolution on `sp` comes to: outside every task
    /// scope it fails; inside one it is one resolution against whatever the
    /// scope has cached for the type.
    pub open spec fn gets(
        ty: TypeInfo,
        service_descriptor: ServiceDescriptior,
        sp: ServiceProvider,
        ctr_methods: TaskLocalCtrMethods,
        r: ServiceBuildResult<BoxedService>,
    ) -> bool {
        if sp.in_task_scope() {
            exists|before: Option<SyncBoxedService>, after: Option<SyncBoxedService>|
                #![trigger ctr_methods.produces(before, service_descriptor, sp, after, r)]
                ctr_methods.produces(before, service_descriptor, sp, after, r)
        } else {
            r == Err::<BoxedService, ServiceBuildError>(
                ServiceBuildError::TaskLocalContextNotInitialized { ty },
            )
        }
    }

    /// Resolves `ty` in the task scope that `sp` runs in.
    pub fn get(
        ty: TypeInfo,
        service_descriptor: &ServiceDescriptior,
        sp: ServiceProvider,
        ctr_methods: &TaskLocalCtrMethods,
    ) -> (r: ServiceBuildResult<BoxedService>)
        ensures
            Self::gets(ty, *service_descriptor, sp, *ctr_methods, r),
            r matches Ok(copy) ==> copy.ty().same(service_descriptor.ty()),
    {
        match sp.task_ctx() {
            Some(ctx) => ctx.resolve(ty, service_descriptor, sp, ctr_methods),
            None => Err(ServiceBuildError::TaskLocalContextNotInitialized { ty }),
        }
    }

    /// Resolves `ty` against this registry: under the lock of the type, the
    /// cached instance is split or the first one is built.
    fn resolve(
        &self,
        ty: TypeInfo,
        service_descriptor: &ServiceDescriptior,
        sp: ServiceProvider,
        ctr_methods: &TaskLocalCtrMethods,
    ) -> (r: ServiceBuildResult<BoxedService>)
        ensures
            exists|before: Option<SyncBoxedService>, after: Option<SyncBoxedService>|
                #![trigger ctr_methods.produces(before, *service_descriptor, sp, after, r)]
                ctr_methods.produces(before, *service_descriptor, sp, after, r),
            r matches Ok(copy) ==> copy.ty().same(service_descriptor.ty()),
    {
        let vacant = Arc::new(mutex_new(TaskLocalProducer::Pending));
        let cell = slot(&self.instances, ty, vacant);
        let mut locked = lock(&*cell);
        let producer = state(&mut locked);
        let ghost before = producer.cached();
        let r = producer.produce(service_descriptor, sp, ctr_methods);
        assert(ctr_methods.produces(before, *service_descriptor, sp, producer.cached(), r));
        r
    }
}

/// A resolution that succeeds leaves an instance cached; one that fails
/// leaves the cache as it was; and an instance that is cached stays cached,
/// unchanged, whatever comes of the resolution.
pub proof fn lemma_cache_is_kept(
    ctr_methods: TaskLocalCtrMethods,
    cached: Option<SyncBoxedService>,
    descriptor: ServiceDescriptior,
    sp: ServiceProvider,
    next: Option<SyncBoxedService>,
    r: ServiceBuildResult<BoxedService>,
)
    requires
        ctr_methods.produces(cached, descriptor, sp, next, r),
    ensures
        r is Ok ==> next is Some,
        r is Err ==> next == cached,
        cached is Some ==> next == cached,
{
}

/// The constructor is called once: after a resolution that built the
/// instance, the next one is split from what the first one left, whatever
/// context it runs on; the constructor has no part in it, and the instance
/// stays cached.
pub proof fn lemma_built_once(
    ctr_methods: TaskLocalCtrMethods,
    descriptor: ServiceDescriptior,
    first_sp: ServiceProvider,
    first_next: Option<SyncBoxedService>,
    first: ServiceBuildResult<BoxedService>,
    second_sp: ServiceProvider,
    second_next: Option<SyncBoxedService>,
    second: ServiceBuildResult<BoxedService>,
)
    requires
        ctr_methods.produces(None, descriptor, first_sp, first_next, first),
        first is Ok,
        ctr_methods.produces(first_next, descriptor, second_sp, second_next, second),
    ensures
        first_next is Some,
        second_next == first_next,
        ctr_methods.hands_out(descriptor.ty(), first_next->Some_0, second),
{
}

/// Whether the constructor of `descriptor` gives a `TService` on `sp`,
/// whatever it is called with.
pub open spec fn gives<TService: 'static>(descriptor: ServiceDescriptior, sp: ServiceProvider) -> bool {
    forall|built: ServiceBuildResult<BoxedService>| #[trigger]
        descriptor.builds(sp, built) ==> (built matches Ok(service) && service.ty()
            == descriptor.ty() && holds_some::<TService>(service))
}

/// A constructor that builds by a function which never fails gives a
/// `TService`.
pub proof fn lemma_succeeding_factory_gives<
    TService: 'static,
    F: Fn(ServiceProvider) -> ServiceBuildResult<TService>,
>(descriptor: ServiceDescriptior, factory: F, sp: ServiceProvider)
    requires
        forall|out: ServiceBuildResult<BoxedService>|
            #![trigger descriptor.builds(sp, out)]
            descriptor.builds(sp, out) == constructs_as::<TService, F>(
                factory,
                descriptor.ty(),
                sp,
                out,
            ),
        forall|made: ServiceBuildResult<TService>| #[trigger]
            call_ensures(factory, (sp,), made) ==> made is Ok,
    ensures
        gives::<TService>(descriptor, sp),
{
    assert forall|built: ServiceBuildResult<BoxedService>| #[trigger]
        descriptor.builds(sp, built) implies (built matches Ok(service) && service.ty()
        == descriptor.ty() && holds_some::<TService>(service)) by {
        let made = choose|made: ServiceBuildResult<TService>|
            #![trigger call_ensures(factory, (sp,), made)]
            call_ensures(factory, (sp,), made) && match made {
                Ok(service) => built matches Ok(boxed) && boxed.ty() == descriptor.ty()
                    && boxed.holds(service),
                Err(error) => built == Err::<BoxedService, ServiceBuildError>(error),
            };
        assert(built->Ok_0.holds(made->Ok_0));
    }
}

/// Whether `service` holds a `TService`.
pub open spec fn holds_some<TService: 'static>(service: BoxedService) -> bool {
    exists|value: TService| #[trigger] service.holds(value)
}

/// Whether `service` holds a `TService`.
pub open spec fn sync_holds_some<TService: 'static + Send + Sync>(service: SyncBoxedService) -> bool {
    exists|value: TService| #[trigger] service.holds(value)
}

/// With the steps of `TService` and a constructor that gives a `TService`,
/// the first resolution succeeds and caches an instance under the key of the
/// registration that holds a `TService`.
pub proof fn lemma_first_build_succeeds<TService: 'static + Sync + Send + Clone>(
    ctr_methods: TaskLocalCtrMethods,
    descriptor: ServiceDescriptior,
    sp: ServiceProvider,
    next: Option<SyncBoxedService>,
    r: ServiceBuildResult<BoxedService>,
)
    requires
        ctr_methods.is_typed::<TService>(),
        gives::<TService>(descriptor, sp),
        ctr_methods.produces(None, descriptor, sp, next, r),
    ensures
        r matches Ok(copy) && copy.ty() == descriptor.ty() && holds_some::<TService>(copy),
        next matches Some(instance) && instance.ty() == descriptor.ty() && sync_holds_some::<
            TService,
        >(instance),
{
    let ty = descriptor.ty();
    let built = choose|built: ServiceBuildResult<BoxedService>| #[trigger]
        descriptor.builds(sp, built) && match built {
            Err(error) => next is None && r == Err::<BoxedService, ServiceBuildError>(error),
            Ok(service) => service.ty() == ty && exists|synced: ServiceBuildResult<SyncBoxedService>|
                #![trigger ctr_methods.syncs(ty, service, synced)]
                ctr_methods.syncs(ty, service, synced) && match synced {
                    Err(error) => error == (ServiceBuildError::InvalidScopeLayerBoxedInputType {
                        expected: ty,
                        found: service.ty(),
                    }) && next is None && r == Err::<BoxedService, ServiceBuildError>(error),
                    Ok(instance) => instance.ty() == service.ty() && ctr_methods.hands_out(
                        ty,
                        instance,
                        r,
                    ) && next == (if r is Ok {
                        Some(instance)
                    } else {
                        None
                    }),
                },
        };
    let service = built->Ok_0;
    let held = choose|value: TService| #[trigger] service.holds(value);
    let synced = choose|synced: ServiceBuildResult<SyncBoxedService>|
        #![trigger ctr_methods.syncs(ty, service, synced)]
        ctr_methods.syncs(ty, service, synced) && match synced {
            Err(error) => error == (ServiceBuildError::InvalidScopeLayerBoxedInputType {
                expected: ty,
                found: service.ty(),
            }) && next is None && r == Err::<BoxedService, ServiceBuildError>(error),
            Ok(instance) => instance.ty() == service.ty() && ctr_methods.hands_out(ty, instance, r)
                && next == (if r is Ok {
                Some(instance)
            } else {
                None
            }),
        };
    assert(syncs_as::<TService>(ty, service, synced));
    assert(service.holds(held));
    let instance = synced->Ok_0;
    assert(instance.holds(held));
    lemma_split_succeeds::<TService>(ctr_methods, ty, instance, r);
}

/// With the steps of `TService`, a copy can be handed out of every instance
/// under the right key that holds a `TService`.
pub proof fn lemma_split_succeeds<TService: 'static + Sync + Send + Clone>(
    ctr_methods: TaskLocalCtrMethods,
    ty: TypeInfo,
    instance: SyncBoxedService,
    r: ServiceBuildResult<BoxedService>,
)
    requires
        ctr_methods.is_typed::<TService>(),
        instance.ty().same(ty),
        sync_holds_some::<TService>(instance),
        ctr_methods.hands_out(ty, instance, r),
    ensures
        r matches Ok(copy) && copy.ty() == instance.ty() && holds_some::<TService>(copy),
{
    let held = choose|value: TService| #[trigger] instance.holds(value);
    let split = choose|split: ServiceBuildResult<SyncBoxedService>|
        #![trigger ctr_methods.splits(ty, instance, split)]
        ctr_methods.splits(ty, instance, split) && match split {
            Err(error) => error == (ServiceBuildError::UnexpectedSingletoneSplitterParams {
                expected: ty,
                found: instance.ty(),
            }) && r == Err::<BoxedService, ServiceBuildError>(error),
            Ok(copy) => copy.ty() == instance.ty() && exists|out: ServiceBuildResult<BoxedService>|
                #![trigger ctr_methods.unsyncs(ty, copy, out)]
                ctr_methods.unsyncs(ty, copy, out) && r == out && match out {
                    Err(error) => error == (ServiceBuildError::InvalidScopeLayerBoxedOutputType {
                        expected: ty,
                        found: copy.ty(),
                    }),
                    Ok(plain) => plain.ty() == copy.ty(),
                },
        };
    assert(sync_splits_as::<TService>(ty, instance, split));
    assert(instance.holds(held));
    let copy = split->Ok_0;
    let clone = choose|clone: TService| cloned::<TService>(held, clone) && #[trigger] copy.holds(clone);
    let out = choose|out: ServiceBuildResult<BoxedService>|
        #![trigger ctr_methods.unsyncs(ty, copy, out)]
        ctr_methods.unsyncs(ty, copy, out) && r == out && match out {
            Err(error) => error == (ServiceBuildError::InvalidScopeLayerBoxedOutputType {
                expected: ty,
                found: copy.ty(),
            }),
            Ok(plain) => plain.ty() == copy.ty(),
        };
    assert(unsyncs_as::<TService>(ty, copy, out));
    assert(copy.holds(clone));
    assert(out->Ok_0.holds(clone));
}

/// With the steps of `TService`, every resolution against a cached instance
/// under the right key that holds a `TService` succeeds, and the instance
/// stays cached.
pub proof fn lemma_later_build_succeeds<TService: 'static + Sync + Send + Clone>(
    ctr_methods: TaskLocalCtrMethods,
    descriptor: ServiceDescriptior,
    sp: ServiceProvider,
    instance: SyncBoxedService,
    next: Option<SyncBoxedService>,
    r: ServiceBuildResult<BoxedService>,
)
    requires
        ctr_methods.is_typed::<TService>(),
        instance.ty().same(descriptor.ty()),
        sync_holds_some::<TService>(instance),
        ctr_methods.produces(Some(instance), descriptor, sp, next, r),
    ensures
        r matches Ok(copy) && copy.ty() == instance.ty() && holds_some::<TService>(copy),
        next == Some(instance),
{
    lemma_split_succeeds::<TService>(ctr_methods, descriptor.ty(), instance, r);
}

/// Outside every task scope a task-scoped resolution fails with
/// `TaskLocalContextNotInitialized`, and with nothing else.
pub proof fn lemma_task_scope_is_needed(
    ty: TypeInfo,
    descriptor: ServiceDescriptior,
    sp: ServiceProvider,
    ctr_methods: TaskLocalCtrMethods,
    r: ServiceBuildResult<BoxedService>,
)
    requires
        !sp.in_task_scope(),
    ensures
        TaskLocalCtx::gets(ty, descriptor, sp, ctr_methods, r) <==> r == Err::<
            BoxedService,
            ServiceBuildError,
        >(ServiceBuildError::TaskLocalContextNotInitialized { ty }),
{
}

/// A run of resolutions against one cache: each starts from what the one
/// before it left. A resolution is given by its context, the cache that it
/// leaves and what it comes back with.
pub open spec fn runs(
    ctr_methods: TaskLocalCtrMethods,
    descriptor: ServiceDescriptior,
    start: Option<SyncBoxedService>,
    calls: Seq<(ServiceProvider, Option<SyncBoxedService>, ServiceBuildResult<BoxedService>)>,
) -> bool {
    forall|i: int|
        0 <= i < calls.len() ==> ctr_methods.produces(
            if i == 0 {
                start
            } else {
                calls[i - 1].1
            },
            descriptor,
            calls[i].0,
            #[trigger] calls[i].1,
            calls[i].2,
        )
}

/// In a run of any length that starts with nothing cached and whose first
/// resolution succeeds, the constructor is called by the first resolution
/// alone: every later one is split from the instance that the first one
/// cached, which stays cached to the end.
pub proof fn lemma_built_once_in_a_run(
    ctr_methods: TaskLocalCtrMethods,
    descriptor: ServiceDescriptior,
    calls: Seq<(ServiceProvider, Option<SyncBoxedService>, ServiceBuildResult<BoxedService>)>,
    i: int,
)
    requires
        runs(ctr_methods, descriptor, None, calls),
        0 < i < calls.len(),
        calls[0].2 is Ok,
    ensures
        calls[0].1 is Some,
        calls[i].1 == calls[0].1,
        ctr_methods.hands_out(descriptor.ty(), calls[0].1->Some_0, calls[i].2),
    decreases i,
{
    assert(ctr_methods.produces(None, descriptor, calls[0].0, calls[0].1, calls[0].2));
    assert(ctr_methods.produces(calls[i - 1].1, descriptor, calls[i].0, calls[i].1, calls[i].2));
    if i > 1 {
        lemma_built_once_in_a_run(ctr_methods, descriptor, calls, i - 1);
    }
}

/// With the steps of `TService` and a constructor that gives a `TService`,
/// every resolution of a run that starts with nothing cached succeeds.
pub proof fn lemma_every_resolution_of_a_run_succeeds<TService: 'static + Sync + Send + Clone>(
    ctr_methods: TaskLocalCtrMethods,
    descriptor: ServiceDescriptior,
    calls: Seq<(ServiceProvider, Option<SyncBoxedService>, ServiceBuildResult<BoxedService>)>,
    i: int,
)
    requires
        runs(ctr_methods, descriptor, None, calls),
        ctr_methods.is_typed::<TService>(),
        0 <= i < calls.len(),
        gives::<TService>(descriptor, calls[0].0),
    ensures
        calls[i].2 matches Ok(copy) && copy.ty().same(descriptor.ty()) && holds_some::<TService>(
            copy,
        ),
{
    assert(ctr_methods.produces(None, descriptor, calls[0].0, calls[0].1, calls[0].2));
    lemma_first_build_succeeds::<TService>(
        ctr_methods,
        descriptor,
        calls[0].0,
        calls[0].1,
        calls[0].2,
    );
    if i > 0 {
        let instance = calls[0].1->Some_0;
        if i > 1 {
            lemma_built_once_in_a_run(ctr_methods, descriptor, calls, i - 1);
        }
        assert(ctr_methods.produces(calls[i - 1].1, descriptor, calls[i].0, calls[i].1, calls[i].2));
        lemma_later_build_succeeds::<TService>(
            ctr_methods,
            descriptor,
            calls[i].0,
            instance,
            calls[i].1,
            calls[i].2,
        );
    }
}

} // verus!
