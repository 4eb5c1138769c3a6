//! The scope layer: which lifecycle policy a type has, and the caches that the policies keep.

use crate::layers::service::{ServiceDescriptior, ServiceLayer};
use crate::types::boxed_service::BoxedService;
use crate::types::boxed_service_sync::SyncBoxedService;
use crate::types::error::{ServiceBuildError, ServiceBuildResult};
use crate::types::type_info::TypeInfo;
use crate::types::type_map::TypeMap;
use crate::ServiceProvider;
use builder::ScopeLayerBuilder;
use core::any::TypeId;
use lock::{lock, mutex_new, state};
use parking_lot::Mutex;
use singleton::SingletoneProducer;
use task_local::{TaskLocalCtrMethods, TaskLocalCtx};
use thread_local::{ThreadLocalCtrMethods, ThreadLocalCtx};
use vstd::prelude::*;

pub mod builder;
pub mod lock;
pub mod methods;
pub mod singleton;
pub mod task_local;
pub mod thread_local;

verus! {

/// The lifecycle policies.
#[derive(Clone, Copy, Debug, PartialEq, Eq, Structural)]
pub enum ScopeKind {
    /// No cache: every resolution builds anew.
    Transient,
    /// One instance for the container.
    Singletone,
    /// One instance for each task scope.
    TaskLocal,
    /// One instance for each thread.
    ThreadLocal,
}

/// A lifecycle policy with what it needs at hand.
pub enum Scope {
    Transient,
    Singletone { ctr_methods: TaskLocalCtrMethods, state: Mutex<SingletoneProducer> },
    TaskLocal(TaskLocalCtrMethods),
    ThreadLocal(ThreadLocalCtrMethods),
}

impl Scope {
    /// Which policy this is.
    pub open spec fn spec_kind(&self) -> ScopeKind {
        match self {
            Scope::Transient => ScopeKind::Transient,
            Scope::Singletone { .. } => ScopeKind::Singletone,
            Scope::TaskLocal(_) => ScopeKind::TaskLocal,
            Scope::ThreadLocal(_) => ScopeKind::ThreadLocal,
        }
    }

    /// Whether the steps of a policy that keeps thread-safe values are those
    /// for values of the type `TService`.
    pub open spec fn is_typed<TService: 'static + Sync + Send + Clone>(&self) -> bool {
        match self {
            Scope::Singletone { ctr_methods, .. } => ctr_methods.is_typed::<TService>(),
            Scope::TaskLocal(ctr_methods) => ctr_methods.is_typed::<TService>(),
            _ => true,
        }
    }

    /// Whether the step of the thread-scoped policy is the one for values of
    /// the type `TService`.
    pub open spec fn splits_typed<TService: 'static + Clone>(&self) -> bool {
        match self {
            Scope::ThreadLocal(ctr_methods) => ctr_methods.is_typed::<TService>(),
            _ => true,
        }
    }

    /// Which policy this is.
    #[verifier::when_used_as_spec(spec_kind)]
    pub fn kind(&self) -> (r: ScopeKind)
        ensures
            r == self.kind(),
    {
        match self {
            Scope::Transient => ScopeKind::Transient,
            Scope::Singletone { .. } => ScopeKind::Singletone,
            Scope::TaskLocal(_) => ScopeKind::TaskLocal,
            Scope::ThreadLocal(_) => ScopeKind::ThreadLocal,
        }
    }
}

/// The lifecycle policy of one type.
pub struct ServiceScopeDescriptior {
    ty: TypeInfo,
    scope: Scope,
}

impl ServiceScopeDescriptior {
    /// The key of the type.
    pub closed spec fn spec_ty(&self) -> TypeInfo {
        self.ty
    }

    /// The policy.
    pub closed spec fn spec_scope(&self) -> &Scope {
        &self.scope
    }

    /// The transient policy for the type filed under `ty`.
    pub fn transient(ty: TypeInfo) -> (r: Self)
        ensures
            r.ty() == ty,
            r.scope().kind() == ScopeKind::Transient,
    {
        Self { ty, scope: Scope::Transient }
    }

    /// The singleton policy for `TService`, filed under `ty`, with nothing
    /// built yet.
    pub fn singletone<TService: 'static + Sync + Send + Clone>(ty: TypeInfo) -> (r: Self)
        ensures
            r.ty() == ty,
            r.scope().kind() == ScopeKind::Singletone,
            r.scope().is_typed::<TService>(),
    {
        Self {
            ty,
            scope: Scope::Singletone {
                ctr_methods: TaskLocalCtrMethods::typed::<TService>(),
                state: mutex_new(SingletoneProducer::Pending),
            },
        }
    }

    /// The task-scoped policy for `TService`, filed under `ty`.
    pub fn task_local<TService: 'static + Sync + Send + Clone>(ty: TypeInfo) -> (r: Self)
        ensures
            r.ty() == ty,
            r.scope().kind() == ScopeKind::TaskLocal,
            r.scope().is_typed::<TService>(),
    {
        Self { ty, scope: Scope::TaskLocal(TaskLocalCtrMethods::typed::<TService>()) }
    }

    /// The thread-scoped policy for `TService`, filed under `ty`.
    pub fn thread_local<TService: 'static + Clone>(ty: TypeInfo) -> (r: Self)
        ensures
            r.ty() == ty,
            r.scope().kind() == ScopeKind::ThreadLocal,
            r.scope().splits_typed::<TService>(),
    {
        Self { ty, scope: Scope::ThreadLocal(ThreadLocalCtrMethods::typed::<TService>()) }
    }

    /// The key of the type.
    #[verifier::when_used_as_spec(spec_ty)]
    pub fn ty(&self) -> (r: TypeInfo)
        ensures
            r == self.ty(),
    {
        self.ty
    }

    /// The policy.
    #[verifier::when_used_as_spec(spec_scope)]
    pub fn scope(&self) -> (r: &Scope)
        ensures
            r == self.scope(),
    {
        &self.scope
    }

    /// What resolving under this policy comes to, with `service` as the
    /// constructor: a transient type is built anew; a singleton is one
    /// resolution against whatever the container has cached; a task-scoped
    /// and a thread-scoped type go to the registry of their scope.
    pub open spec fn yields(
        &self,
        service: ServiceDescriptior,
        sp: ServiceProvider,
        r: ServiceBuildResult<BoxedService>,
    ) -> bool {
        match self.scope() {
            Scope::Transient => service.builds(sp, r),
            Scope::Singletone { ctr_methods, .. } => exists|
                before: Option<SyncBoxedService>,
                after: Option<SyncBoxedService>,
            |
                #![trigger ctr_methods.produces(before, service, sp, after, r)]
                ctr_methods.produces(before, service, sp, after, r),
            Scope::TaskLocal(ctr_methods) => TaskLocalCtx::gets(
                self.ty(),
                service,
                sp,
                *ctr_methods,
                r,
            ),
            Scope::ThreadLocal(ctr_methods) => ThreadLocalCtx::gets(service, sp, *ctr_methods, r),
        }
    }
}

/// The scope layer of a finished container, over its construction layer.
pub struct ScopeLayer {
    service_layer: ServiceLayer,
    scopes: TypeMap<ServiceScopeDescriptior>,
}

impl ScopeLayer {
    /// The registered constructors.
    pub closed spec fn services(&self) -> Map<TypeId, ServiceDescriptior> {
        self.service_layer@
    }

    /// The registered policies.
    pub closed spec fn scopes(&self) -> Map<TypeId, ServiceScopeDescriptior> {
        self.scopes@
    }

    /// Every descriptor is filed under the key that it carries.
    pub closed spec fn wf(&self) -> bool {
        &&& self.service_layer.wf()
        &&& self.scopes.wf()
        &&& forall|id: TypeId| #[trigger]
            self.scopes@.contains_key(id) ==> self.scopes@[id].ty().id == id
    }

    /// What resolving `ty` on `sp` comes to: `ScopeNotFound` without a
    /// policy, `ServiceNotFound` without a constructor, and otherwise what
    /// the policy makes of the constructor.
    pub open spec fn yields(
        &self,
        ty: TypeInfo,
        sp: ServiceProvider,
        r: ServiceBuildResult<BoxedService>,
    ) -> bool {
        if !self.scopes().contains_key(ty.id) {
            r == Err::<BoxedService, ServiceBuildError>(ServiceBuildError::ScopeNotFound { ty })
        } else if !self.services().contains_key(ty.id) {
            r == Err::<BoxedService, ServiceBuildError>(ServiceBuildError::ServiceNotFound { ty })
        } else {
            self.scopes()[ty.id].yields(self.services()[ty.id], sp, r)
        }
    }

    /// Resolves `ty` through its lifecycle policy.
    pub fn get(&self, ty: TypeInfo, sp: ServiceProvider) -> (r: ServiceBuildResult<BoxedService>)
        requires
            self.wf(),
        ensures
            self.yields(ty, sp, r),
            r matches Ok(service) ==> service.ty().same(ty),
    {
        let scope = match self.scopes.get(&ty) {
            Some(scope) => scope,
            None => {
                return Err(ServiceBuildError::ScopeNotFound { ty });
            },
        };
        let service = match self.service_layer.get(ty) {
            Ok(service) => service,
            Err(error) => {
                return Err(error);
            },
        };
        assert(self.scopes@.contains_key(ty.id));
        match &scope.scope {
            Scope::Transient => service.build(sp),
            Scope::Singletone { ctr_methods, state: singletone_state } => {
                let mut singletone_state_lock = lock(singletone_state);
                let producer = state(&mut singletone_state_lock);
                let ghost before = producer.cached();
                let r = producer.build(service, sp, ctr_methods);
                assert(ctr_methods.produces(before, *service, sp, producer.cached(), r));
                r
            },
            Scope::TaskLocal(ctr_methods) => TaskLocalCtx::get(scope.ty(), service, sp, ctr_methods),
            Scope::ThreadLocal(ctr_methods) => ThreadLocalCtx::get(
                scope.ty(),
                service,
                sp,
                ctr_methods,
            ),
        }
    }

    /// Freezes what the builder holds, over the construction layer.
    fn new(builder: ScopeLayerBuilder, service_layer: ServiceLayer) -> (r: Self)
        requires
            builder.wf(),
            service_layer.wf(),
        ensures
            r.wf(),
            r.scopes() == builder@,
            r.services() == service_layer@,
    {
        ScopeLayer { service_layer, scopes: builder.into_scopes() }
    }
}

/// A transient service is built anew by every resolution: what comes back
/// is what the constructor gives, and nothing that was resolved before has a
/// part in it.
pub proof fn lemma_transient_rebuilds(
    scope: ServiceScopeDescriptior,
    service: ServiceDescriptior,
    sp: ServiceProvider,
    r: ServiceBuildResult<BoxedService>,
)
    requires
        scope.scope().kind() == ScopeKind::Transient,
    ensures
        scope.yields(service, sp, r) <==> service.builds(sp, r),
{
}

/// Outside every task scope, a task-scoped service fails to resolve with
/// `TaskLocalContextNotInitialized` under the key of its registration.
pub proof fn lemma_task_local_outside_scope(
    scope: ServiceScopeDescriptior,
    service: ServiceDescriptior,
    sp: ServiceProvider,
    r: ServiceBuildResult<BoxedService>,
)
    requires
        scope.scope().kind() == ScopeKind::TaskLocal,
        !sp.in_task_scope(),
    ensures
        scope.yields(service, sp, r) <==> r == Err::<BoxedService, ServiceBuildError>(
            ServiceBuildError::TaskLocalContextNotInitialized { ty: scope.ty() },
        ),
{
}

} // verus!
