//! A runtime composition engine: constructors are registered per type with a
//! sharing policy, and whole dependency graphs are resolved by type key.

use layers::mapping::MappingLayer;
use layers::scope::task_local::TaskLocalCtx;
use layers::scope::thread_local::ThreadLocalCtx;
use std::rc::Rc;
use std::sync::Arc;
use types::boxed_service::BoxedService;
use types::error::ServiceBuildResult;
use types::type_info::TypeInfo;
use vstd::prelude::*;

pub mod builder;
pub mod layers;
pub mod types;

verus! {

/// An `Arc` of the layers of a finished container: what every context of one
/// container shares, and what may be sent to another thread. A constructor
/// takes a context and the layers hold the constructors, so the `Arc` is held
/// here and reached only through the three functions below.
#[verifier::external_body]
pub struct SharedProvider {
    mapping_layer: Arc<MappingLayer>,
}

/// The layers that a handle points to.
pub uninterp spec fn layers_of(shared: SharedProvider) -> MappingLayer;

impl SharedProvider {
    /// The layers are well formed.
    #[verifier::type_invariant]
    spec fn wf(self) -> bool {
        layers_of(self).wf()
    }

    /// `Arc::new`: a handle to `mapping_layer`.
    #[verifier::external_body]
    pub(crate) fn new(mapping_layer: MappingLayer) -> (r: Self)
        requires
            mapping_layer.wf(),
        ensures
            layers_of(r) == mapping_layer,
    {
        SharedProvider { mapping_layer: Arc::new(mapping_layer) }
    }

    /// The `Arc`'s `deref`: the layers that the handle points to.
    #[verifier::external_body]
    pub(crate) fn layers(&self) -> (r: &MappingLayer)
        ensures
            *r == layers_of(*self),
    {
        &*self.mapping_layer
    }

    /// `Arc::clone`: another handle to the same layers.
    #[verifier::external_body]
    pub(crate) fn share(&self) -> (r: Self)
        ensures
            r == *self,
    {
        SharedProvider { mapping_layer: Arc::clone(&self.mapping_layer) }
    }

    /// A context over these layers, with `thread_ctx` as the registry of
    /// the thread and `task_ctx` as that of the task scope.
    pub fn bind(&self, thread_ctx: Rc<ThreadLocalCtx>, task_ctx: Option<Arc<TaskLocalCtx>>) -> (r:
        ServiceProvider)
        ensures
            r.layers() == layers_of(*self),
            r.thread_registry() == thread_ctx,
            r.task_registry() == task_ctx,
    {
        ServiceProvider { mapping_layer: self.share(), thread_ctx, task_ctx }
    }
}

impl Clone for SharedProvider {
    fn clone(&self) -> (r: Self)
        ensures
            r == *self,
    {
        self.share()
    }
}

/// The resolution context: the layers of the container, and the registries
/// of the thread and of the task scope that a resolution runs in. It is
/// handed to every constructor, and cloning it is cheap.
pub struct ServiceProvider {
    mapping_layer: SharedProvider,
    thread_ctx: Rc<ThreadLocalCtx>,
    task_ctx: Option<Arc<TaskLocalCtx>>,
}

impl ServiceProvider {
    /// The layers of the container.
    pub closed spec fn layers(&self) -> MappingLayer {
        layers_of(self.mapping_layer)
    }

    /// The registry of the thread that the context runs on.
    pub closed spec fn thread_registry(&self) -> Rc<ThreadLocalCtx> {
        self.thread_ctx
    }

    /// The registry of the task scope that the context runs in, if it runs in
    /// one.
    pub closed spec fn task_registry(&self) -> Option<Arc<TaskLocalCtx>> {
        self.task_ctx
    }

    /// Whether the context runs inside a task scope.
    pub open spec fn in_task_scope(&self) -> bool {
        self.task_registry() is Some
    }

    /// The registry of the task scope that the context runs in.
    pub(crate) fn task_ctx(&self) -> (r: Option<Arc<TaskLocalCtx>>)
        ensures
            r == self.task_registry(),
    {
        match &self.task_ctx {
            Some(ctx) => Some(ctx.clone()),
            None => None,
        }
    }

    /// The registry of the thread that the context runs on.
    pub(crate) fn thread_ctx(&self) -> (r: Rc<ThreadLocalCtx>)
        ensures
            r == self.thread_registry(),
    {
        self.thread_ctx.clone()
    }

    /// A handle to the layers alone, which may go to another thread.
    pub fn share(&self) -> (r: SharedProvider)
        ensures
            layers_of(r) == self.layers(),
    {
        self.mapping_layer.share()
    }

    /// The same container seen from another thread: the thread registry is
    /// a new one, and the task scope is the one that the context runs in.
    pub fn enter_thread_scope(&self) -> (r: Self)
        ensures
            r.layers() == self.layers(),
            r.thread_registry().is_new(),
            r.task_registry() == self.task_registry(),
    {
        ServiceProvider {
            mapping_layer: self.mapping_layer.share(),
            thread_ctx: Rc::new(ThreadLocalCtx::new()),
            task_ctx: self.task_ctx(),
        }
    }

    /// The same container seen from inside a new task scope: the task
    /// registry is a new one, and the thread registry is the one of the
    /// context.
    pub fn enter_task_scope(&self) -> (r: Self)
        ensures
            r.layers() == self.layers(),
            r.thread_registry() == self.thread_registry(),
            r.task_registry() matches Some(registry) && registry.is_new(),
    {
        ServiceProvider {
            mapping_layer: self.mapping_layer.share(),
            thread_ctx: self.thread_ctx.clone(),
            task_ctx: Some(Arc::new(TaskLocalCtx::new())),
        }
    }

    /// Builds the service of the type `TService`.
    pub fn resolve<TService: 'static>(&self) -> (r: ServiceBuildResult<TService>)
        ensures
            exists|ty: TypeInfo, raw: ServiceBuildResult<BoxedService>|
                #![trigger self.layers().resolves(ty, *self, raw)]
                ty.is_key_of::<TService>() && self.layers().resolves(ty, *self, raw)
                    && layers::mapping::typed::<TService>(ty, raw, r),
    {
        proof {
            use_type_invariant(&self.mapping_layer);
        }
        let layers = self.mapping_layer.layers();
        let sp = self.clone();
        let r = layers.resolve::<TService>(sp);
        proof {
            let (ty, raw) = choose|ty: TypeInfo, raw: ServiceBuildResult<BoxedService>|
                #![trigger layers.resolves(ty, sp, raw)]
                ty.is_key_of::<TService>() && layers.resolves(ty, sp, raw)
                    && layers::mapping::typed::<TService>(ty, raw, r);
            assert(self.layers().resolves(ty, *self, raw));
        }
        r
    }

    /// Builds the service filed under `ty`.
    pub fn resolve_raw(&self, ty: TypeInfo) -> (r: ServiceBuildResult<BoxedService>)
        ensures
            self.layers().resolves(ty, *self, r),
            r matches Ok(service) ==> service.ty().same(ty),
    {
        proof {
            use_type_invariant(&self.mapping_layer);
        }
        self.mapping_layer.layers().resolve_raw(ty, self.clone())
    }

    /// Builds every service of the type `TService`, in the order in which
    /// they were registered.
    pub fn resolve_all<TService: 'static>(&self) -> (r: ServiceBuildResult<Vec<TService>>)
        ensures
            exists|ty: TypeInfo, raw: ServiceBuildResult<Vec<BoxedService>>|
                #![trigger self.layers().resolves_all(ty, *self, raw)]
                ty.is_key_of::<TService>() && self.layers().resolves_all(ty, *self, raw)
                    && layers::mapping::typed_all::<TService>(ty, raw, r),
    {
        proof {
            use_type_invariant(&self.mapping_layer);
        }
        let layers = self.mapping_layer.layers();
        let sp = self.clone();
        let r = layers.resolve_all::<TService>(sp);
        proof {
            let (ty, raw) = choose|ty: TypeInfo, raw: ServiceBuildResult<Vec<BoxedService>>|
                #![trigger layers.resolves_all(ty, sp, raw)]
                ty.is_key_of::<TService>() && layers.resolves_all(ty, sp, raw)
                    && layers::mapping::typed_all::<TService>(ty, raw, r);
            assert(self.layers().resolves_all(ty, *self, raw));
        }
        r
    }

    /// Builds every service filed under `ty`, in the order in which they
    /// were registered.
    pub fn resolve_all_raw(&self, ty: TypeInfo) -> (r: ServiceBuildResult<Vec<BoxedService>>)
        ensures
            self.layers().resolves_all(ty, *self, r),
            r matches Ok(services) ==> forall|i: int|
                0 <= i < services@.len() ==> (#[trigger] services@[i]).ty().same(ty),
    {
        proof {
            use_type_invariant(&self.mapping_layer);
        }
        self.mapping_layer.layers().resolve_all_raw(ty, self.clone())
    }
}

impl Clone for ServiceProvider {
    fn clone(&self) -> (r: Self)
        ensures
            r == *self,
    {
        ServiceProvider {
            mapping_layer: self.mapping_layer.share(),
            thread_ctx: self.thread_ctx.clone(),
            task_ctx: self.task_ctx(),
        }
    }
}

} // verus!
