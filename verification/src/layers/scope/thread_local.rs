//! The thread-scoped policy: one cached instance for each thread registry.

use super::lock::{instances_new, lock, mutex_new, slot, state, Instances};
use super::methods::{splits_as, Erased, Splitter, TypedSplit};
use super::task_local::{gives, holds_some};
use crate::layers::service::ServiceDescriptior;
use crate::types::boxed_service::BoxedService;
use crate::types::error::{ServiceBuildError, ServiceBuildResult};
use crate::types::type_info::TypeInfo;
use crate::ServiceProvider;
use std::sync::Arc;
use vstd::prelude::*;

verus! {

/// The one step between a constructor and a cache that never leaves its
/// thread: split a copy off the cached value.
pub struct ThreadLocalCtrMethods {
    splitter: Erased<dyn Splitter>,
}

impl ThreadLocalCtrMethods {
    /// Whether `r` is what splitting a copy off `service` can come back with.
    pub closed spec fn splits(
        &self,
        expected: TypeInfo,
        service: BoxedService,
        r: ServiceBuildResult<BoxedService>,
    ) -> bool {
        self.splitter.step.splits(expected, service, r)
    }

    /// What is left of a resolution once the instance is at hand: a copy is
    /// split off it, under the key of the instance. An instance under a
    /// foreign key is refused before it is split. The instance itself stays
    /// as it is.
    pub open spec fn hands_out(
        &self,
        ty: TypeInfo,
        instance: BoxedService,
        r: ServiceBuildResult<BoxedService>,
    ) -> bool {
        if !instance.ty().same(ty) {
            r == Err::<BoxedService, ServiceBuildError>(
                ServiceBuildError::UnexpectedSingletoneSplitterParams {
                    expected: ty,
                    found: instance.ty(),
                },
            )
        } else {
            self.splits(ty, instance, r) && match r {
                Err(error) => error == (ServiceBuildError::UnexpectedSingletoneSplitterParams {
                    expected: ty,
                    found: instance.ty(),
                }),
                Ok(copy) => copy.ty() == instance.ty(),
            }
        }
    }

    /// One resolution against a cache. With an instance cached, the
    /// constructor is not called: a copy is split off the instance, which
    /// stays cached whatever comes of the copy. With none, the constructor is
    /// called once; its value is cached if a copy of it could be handed out,
    /// and nothing is cached otherwise.
    pub open spec fn produces(
        &self,
        cached: Option<BoxedService>,
        descriptor: ServiceDescriptior,
        sp: ServiceProvider,
        next: Option<BoxedService>,
        r: ServiceBuildResult<BoxedService>,
    ) -> bool {
        match cached {
            Some(instance) => next == cached && self.hands_out(descriptor.ty(), instance, r),
            None => exists|built: ServiceBuildResult<BoxedService>|
                #![trigger descriptor.builds(sp, built)]
                descriptor.builds(sp, built) && match built {
                    Err(error) => next is None && r == Err::<BoxedService, ServiceBuildError>(
                        error,
                    ),
                    Ok(instance) => instance.ty() == descriptor.ty() && self.hands_out(
                        descriptor.ty(),
                        instance,
                        r,
                    ) && next == (if r is Ok {
                        Some(instance)
                    } else {
                        None
                    }),
                },
        }
    }

    /// Whether the step is the one for values of the type `TService`.
    pub open spec fn is_typed<TService: 'static + Clone>(&self) -> bool {
        forall|expected: TypeInfo, service: BoxedService, out: ServiceBuildResult<BoxedService>|
            #![trigger self.splits(expected, service, out)]
            self.splits(expected, service, out) == splits_as::<TService>(expected, service, out)
    }

    /// Wraps the step.
    pub fn new(splitter: Box<dyn Splitter>) -> (r: Self)
        ensures
            forall|expected: TypeInfo, service: BoxedService, out: ServiceBuildResult<BoxedService>|
                #![trigger r.splits(expected, service, out)]
                r.splits(expected, service, out) == splitter.splits(expected, service, out),
    {
        let splitter = Erased { step: splitter };
        Self { splitter }
    }

    /// The step for values of the type `TService`.
    pub fn typed<TService: 'static + Clone>() -> (r: Self)
        ensures
            r.is_typed::<TService>(),
    {
        Self::new(Box::new(TypedSplit::<TService>::new()))
    }

    /// Splits a copy off `instance`.
    fn hand_out(&self, ty: TypeInfo, instance: &BoxedService) -> (r: ServiceBuildResult<
        BoxedService,
    >)
        ensures
            self.hands_out(ty, *instance, r),
            r matches Ok(copy) ==> copy.ty().same(ty),
    {
        let found = instance.ty();
        if found != ty {
            return Err(
                ServiceBuildError::UnexpectedSingletoneSplitterParams { expected: ty, found },
            );
        }
        self.splitter.step.split(ty, instance)
    }

    /// One resolution against `cached`: the cache to keep from now on, and
    /// what the caller gets.
    pub fn produce(
        &self,
        cached: Option<BoxedService>,
        descriptor: &ServiceDescriptior,
        sp: ServiceProvider,
    ) -> (r: (Option<BoxedService>, ServiceBuildResult<BoxedService>))
        ensures
            self.produces(cached, *descriptor, sp, r.0, r.1),
            r.1 matches Ok(copy) ==> copy.ty().same(descriptor.ty()),
            r.1 is Ok ==> r.0 is Some,
            r.1 is Err ==> r.0 == cached,
            cached is Some ==> r.0 == cached,
            cached is None ==> (r.0 matches Some(kept) ==> kept.ty() == descriptor.ty()),
    {
        let ty = descriptor.ty();
        match cached {
            Some(instance) => {
                let r = self.hand_out(ty, &instance);
                (Some(instance), r)
            },
            None => {
                let built = descriptor.build(sp);
                assert(descriptor.builds(sp, built));
                match built {
                    Err(error) => (None, Err(error)),
                    Ok(instance) => {
                        let r = self.hand_out(ty, &instance);
                        match r {
                            Ok(copy) => (Some(instance), Ok(copy)),
                            Err(error) => (None, Err(error)),
                        }
                    },
                }
            },
        }
    }
}

/// What a thread registry caches for one type key.
pub enum ThreadLocalProducer {
    /// Nothing was built yet.
    Pending,
    /// The instance that every later resolution is split from.
    Created { instance: BoxedService },
}

impl ThreadLocalProducer {
    /// The cached instance, if there is one.
    pub open spec fn cached(self) -> Option<BoxedService> {
        match self {
            ThreadLocalProducer::Pending => None,
            ThreadLocalProducer::Created { instance } => Some(instance),
        }
    }

    /// Resolves once against this cache and keeps what is to be cached from
    /// now on.
    pub fn produce(
        &mut self,
        service_descriptor: &ServiceDescriptior,
        sp: ServiceProvider,
        ctr_methods: &ThreadLocalCtrMethods,
    ) -> (r: ServiceBuildResult<BoxedService>)
        ensures
            ctr_methods.produces(
                old(self).cached(),
                *service_descriptor,
                sp,
                final(self).cached(),
                r,
            ),
            r matches Ok(copy) ==> copy.ty().same(service_descriptor.ty()),
            r is Ok ==> *final(self) is Created,
            r is Err ==> *final(self) == *old(self),
            *old(self) is Created ==> *final(self) == *old(self),
            *old(self) is Pending ==> (final(self).cached() matches Some(kept) ==> kept.ty()
                == service_descriptor.ty()),
    {
        let mut old_val = ThreadLocalProducer::Pending;
        core::mem::swap(self, &mut old_val);
        let cached = match old_val {
            ThreadLocalProducer::Pending => None,
            ThreadLocalProducer::Created { instance } => Some(instance),
        };
        let (next, r) = ctr_methods.produce(cached, service_descriptor, sp);
        match next {
            Some(instance) => {
                *self = ThreadLocalProducer::Created { instance };
            },
            None => {},
        }
        r
    }
}

/// The registry of one thread: its cached instances, each behind a lock of
/// its own.
pub struct ThreadLocalCtx {
    instances: Instances<ThreadLocalProducer>,
}

impl ThreadLocalCtx {
    /// Whether the registry is one that `new` gave. This says where the
    /// registry came from, not what it holds: it stays so after instances
    /// were cached in it.
    pub open spec fn is_new(&self) -> bool {
        call_ensures(Self::new, (), *self)
    }

    /// A registry that caches nothing yet.
    pub fn new() -> Self {
        Self { instances: instances_new() }
    }

    /// What a thread-scoped resolution comes to: one resolution against
    /// whatever the thread has cached for the type.
    pub open spec fn gets(
        service_descriptor: ServiceDescriptior,
        sp: ServiceProvider,
        ctr_methods: ThreadLocalCtrMethods,
        r: ServiceBuildResult<BoxedService>,
    ) -> bool {
        exists|before: Option<BoxedService>, after: Option<BoxedService>|
            #![trigger ctr_methods.produces(before, service_descriptor, sp, after, r)]
            ctr_methods.produces(before, service_descriptor, sp, after, r)
    }

    /// Resolves `ty` in the registry of the thread that `sp` runs on.
    pub fn get(
        ty: TypeInfo,
        service_descriptor: &ServiceDescriptior,
        sp: ServiceProvider,
        ctr_methods: &ThreadLocalCtrMethods,
    ) -> (r: ServiceBuildResult<BoxedService>)
        ensures
            Self::gets(*service_descriptor, sp, *ctr_methods, r),
            r matches Ok(copy) ==> copy.ty().same(service_descriptor.ty()),
    {
        let ctx = sp.thread_ctx();
        ctx.resolve(ty, service_descriptor, sp, ctr_methods)
    }

    /// Resolves `ty` against this registry: under the lock of the type, the
    /// cached instance is split or the first one is built.
    fn resolve(
        &self,
        ty: TypeInfo,
        service_descriptor: &ServiceDescriptior,
        sp: ServiceProvider,
        ctr_methods: &ThreadLocalCtrMethods,
    ) -> (r: ServiceBuildResult<BoxedService>)
        ensures
            Self::gets(*service_descriptor, sp, *ctr_methods, r),
            r matches Ok(copy) ==> copy.ty().same(service_descriptor.ty()),
    {
        let vacant = Arc::new(mutex_new(ThreadLocalProducer::Pending));
        let cell = slot(&self.instances, ty, vacant);
        let mut locked = lock(&*cell);
        let producer = state(&mut locked);
        let ghost before = producer.cached();
        let r = producer.produce(service_descriptor, sp, ctr_methods);
        assert(ctr_methods.produces(before, *service_descriptor, sp, producer.cached(), r));
        r
    }
}

/// A resolution that succeeds leaves an instance cached; one that fails
/// leaves the cache as it was; and an instance that is cached stays cached,
/// unchanged, whatever comes of the resolution.
pub proof fn lemma_thread_cache_is_kept(
    ctr_methods: ThreadLocalCtrMethods,
    cached: Option<BoxedService>,
    descriptor: ServiceDescriptior,
    sp: ServiceProvider,
    next: Option<BoxedService>,
    r: ServiceBuildResult<BoxedService>,
)
    requires
        ctr_methods.produces(cached, descriptor, sp, next, r),
    ensures
        r is Ok ==> next is Some,
        r is Err ==> next == cached,
        cached is Some ==> next == cached,
{
}

/// The constructor is called once for each registry: after a resolution
/// that built the instance, the next one against the same registry is split
/// from what the first one left; the constructor has no part in it, and the
/// instance stays cached.
pub proof fn lemma_thread_built_once(
    ctr_methods: ThreadLocalCtrMethods,
    descriptor: ServiceDescriptior,
    first_sp: ServiceProvider,
    first_next: Option<BoxedService>,
    first: ServiceBuildResult<BoxedService>,
    second_sp: ServiceProvider,
    second_next: Option<BoxedService>,
    second: ServiceBuildResult<BoxedService>,
)
    requires
        ctr_methods.produces(None, descriptor, first_sp, first_next, first),
        first is Ok,
        ctr_methods.produces(first_next, descriptor, second_sp, second_next, second),
    ensures
        first_next is Some,
        second_next == first_next,
        ctr_methods.hands_out(descriptor.ty(), first_next->Some_0, second),
{
}

/// With the step of `TService` and a constructor that gives a `TService`,
/// the first resolution succeeds and caches an instance under the key of the
/// registration that holds a `TService`.
pub proof fn lemma_thread_first_build_succeeds<TService: 'static + Clone>(
    ctr_methods: ThreadLocalCtrMethods,
    descriptor: ServiceDescriptior,
    sp: ServiceProvider,
    next: Option<BoxedService>,
    r: ServiceBuildResult<BoxedService>,
)
    requires
        ctr_methods.is_typed::<TService>(),
        gives::<TService>(descriptor, sp),
        ctr_methods.produces(None, descriptor, sp, next, r),
    ensures
        r matches Ok(copy) && copy.ty() == descriptor.ty() && holds_some::<TService>(copy),
        next matches Some(instance) && instance.ty() == descriptor.ty() && holds_some::<TService>(
            instance,
        ),
{
    let ty = descriptor.ty();
    let built = choose|built: ServiceBuildResult<BoxedService>| #[trigger]
        descriptor.builds(sp, built) && match built {
            Err(error) => next is None && r == Err::<BoxedService, ServiceBuildError>(error),
            Ok(instance) => instance.ty() == ty && ctr_methods.hands_out(ty, instance, r) && next
                == (if r is Ok {
                Some(instance)
            } else {
                None
            }),
        };
    lemma_thread_split_succeeds::<TService>(ctr_methods, ty, built->Ok_0, r);
}

/// With the step of `TService`, a copy can be handed out of every instance
/// under the right key that holds a `TService`.
pub proof fn lemma_thread_split_succeeds<TService: 'static + Clone>(
    ctr_methods: ThreadLocalCtrMethods,
    ty: TypeInfo,
    instance: BoxedService,
    r: ServiceBuildResult<BoxedService>,
)
    requires
        ctr_methods.is_typed::<TService>(),
        instance.ty().same(ty),
        holds_some::<TService>(instance),
        ctr_methods.hands_out(ty, instance, r),
    ensures
        r matches Ok(copy) && copy.ty() == instance.ty() && holds_some::<TService>(copy),
{
    let held = choose|value: TService| #[trigger] instance.holds(value);
    assert(splits_as::<TService>(ty, instance, r));
    assert(instance.holds(held));
    let copy = r->Ok_0;
    let clone = choose|clone: TService| cloned::<TService>(held, clone) && #[trigger] copy.holds(clone);
    assert(copy.holds(clone));
}

/// With the step of `TService`, every resolution against a cached instance
/// under the right key that holds a `TService` succeeds, and the instance
/// stays cached.
pub proof fn lemma_thread_later_build_succeeds<TService: 'static + Clone>(
    ctr_methods: ThreadLocalCtrMethods,
    descriptor: ServiceDescriptior,
    sp: ServiceProvider,
    instance: BoxedService,
    next: Option<BoxedService>,
    r: ServiceBuildResult<BoxedService>,
)
    requires
        ctr_methods.is_typed::<TService>(),
        instance.ty().same(descriptor.ty()),
        holds_some::<TService>(instance),
        ctr_methods.produces(Some(instance), descriptor, sp, next, r),
    ensures
        r matches Ok(copy) && copy.ty() == instance.ty() && holds_some::<TService>(copy),
        next == Some(instance),
{
    lemma_thread_split_succeeds::<TService>(ctr_methods, descriptor.ty(), instance, r);
}

/// A run of resolutions against one cache: each starts from what the one
/// before it left. A resolution is given by its context, the cache that it
/// leaves and what it comes back with.
pub open spec fn thread_runs(
    ctr_methods: ThreadLocalCtrMethods,
    descriptor: ServiceDescriptior,
    start: Option<BoxedService>,
    calls: Seq<(ServiceProvider, Option<BoxedService>, ServiceBuildResult<BoxedService>)>,
) -> bool {
    forall|i: int|
        0 <= i < calls.len() ==> ctr_methods.produces(
            if i == 0 {
                start
            } else {
                calls[i - 1].1
            },
            descriptor,
            calls[i].0,
            #[trigger] calls[i].1,
            calls[i].2,
        )
}

/// In a run of any length that starts with nothing cached and whose first
/// resolution succeeds, the constructor is called by the first resolution
/// alone: every later one is split from the instance that the first one
/// cached, which stays cached to the end.
pub proof fn lemma_thread_built_once_in_a_run(
    ctr_methods: ThreadLocalCtrMethods,
    descriptor: ServiceDescriptior,
    calls: Seq<(ServiceProvider, Option<BoxedService>, ServiceBuildResult<BoxedService>)>,
    i: int,
)
    requires
        thread_runs(ctr_methods, descriptor, None, calls),
        0 < i < calls.len(),
        calls[0].2 is Ok,
    ensures
        calls[0].1 is Some,
        calls[i].1 == calls[0].1,
        ctr_methods.hands_out(descriptor.ty(), calls[0].1->Some_0, calls[i].2),
    decreases i,
{
    assert(ctr_methods.produces(None, descriptor, calls[0].0, calls[0].1, calls[0].2));
    assert(ctr_methods.produces(calls[i - 1].1, descriptor, calls[i].0, calls[i].1, calls[i].2));
    if i > 1 {
        lemma_thread_built_once_in_a_run(ctr_methods, descriptor, calls, i - 1);
    }
}

/// With the steps of `TService` and a constructor that gives a `TService`,
/// every resolution of a run that starts with nothing cached succeeds.
pub proof fn lemma_thread_every_resolution_of_a_run_succeeds<TService: 'static + Clone>(
    ctr_methods: ThreadLocalCtrMethods,
    descriptor: ServiceDescriptior,
    calls: Seq<(ServiceProvider, Option<BoxedService>, ServiceBuildResult<BoxedService>)>,
    i: int,
)
    requires
        thread_runs(ctr_methods, descriptor, None, calls),
        ctr_methods.is_typed::<TService>(),
        0 <= i < calls.len(),
        gives::<TService>(descriptor, calls[0].0),
    ensures
        calls[i].2 matches Ok(copy) && copy.ty().same(descriptor.ty()) && holds_some::<TService>(
            copy,
        ),
{
    assert(ctr_methods.produces(None, descriptor, calls[0].0, calls[0].1, calls[0].2));
    lemma_thread_first_build_succeeds::<TService>(
        ctr_methods,
        descriptor,
        calls[0].0,
        calls[0].1,
        calls[0].2,
    );
    if i > 0 {
        let instance = calls[0].1->Some_0;
        if i > 1 {
            lemma_thread_built_once_in_a_run(ctr_methods, descriptor, calls, i - 1);
        }
        assert(ctr_methods.produces(calls[i - 1].1, descriptor, calls[i].0, calls[i].1, calls[i].2));
        lemma_thread_later_build_succeeds::<TService>(
            ctr_methods,
            descriptor,
            calls[i].0,
            instance,
            calls[i].1,
            calls[i].2,
        );
    }
}

} // verus!
