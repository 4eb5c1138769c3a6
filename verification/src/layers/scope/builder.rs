//! The scope layer while registrations are taken.

use super::{ScopeKind, ScopeLayer, ServiceScopeDescriptior};
use crate::layers::service::ServiceLayer;
use crate::types::type_info::TypeInfo;
use crate::types::type_map::TypeMap;
use core::any::TypeId;
use vstd::prelude::*;

verus! {

/// The lifecycle policy of each registered type.
pub struct ScopeLayerBuilder {
    scopes: TypeMap<ServiceScopeDescriptior>,
}

impl View for ScopeLayerBuilder {
    type V = Map<TypeId, ServiceScopeDescriptior>;

    closed spec fn view(&self) -> Map<TypeId, ServiceScopeDescriptior> {
        self.scopes@
    }
}

impl ScopeLayerBuilder {
    /// Every descriptor is filed under the key that it carries.
    pub closed spec fn wf(&self) -> bool {
        &&& self.scopes.wf()
        &&& forall|id: TypeId| #[trigger] self@.contains_key(id) ==> self@[id].ty().id == id
    }

    /// Whether `self` is `before` with the policy `kind` filed under `ty`, in
    /// place of the one that was filed there.
    pub open spec fn added(&self, before: Self, ty: TypeInfo, kind: ScopeKind) -> bool {
        &&& self@.dom() == before@.dom().insert(ty.id)
        &&& self@[ty.id].ty() == ty
        &&& self@[ty.id].scope().kind() == kind
        &&& forall|id: TypeId| id != ty.id && before@.contains_key(id) ==> self@[id] == before@[id]
    }

    /// A layer without policies.
    pub fn new() -> (r: Self)
        ensures
            r.wf(),
            r@ == Map::<TypeId, ServiceScopeDescriptior>::empty(),
    {
        Self { scopes: TypeMap::new() }
    }

    /// Files `descriptor` under the key that it carries.
    fn add(&mut self, descriptor: ServiceScopeDescriptior)
        requires
            old(self).wf(),
        ensures
            final(self).wf(),
            final(self).added(*old(self), descriptor.ty(), descriptor.scope().kind()),
            final(self)@[descriptor.ty().id] == descriptor,
    {
        let ty = descriptor.ty();
        self.scopes.insert(ty, descriptor);
        assert forall|id: TypeId| #[trigger] self@.contains_key(id) implies self@[id].ty().id == id by {
            if id != ty.id {
                assert(old(self)@.contains_key(id));
            }
        }
        assert(self@.dom() =~= old(self)@.dom().insert(ty.id));
    }

    /// Makes the type filed under `ty` transient.
    pub fn add_transient(&mut self, ty: TypeInfo)
        requires
            old(self).wf(),
        ensures
            final(self).wf(),
            final(self).added(*old(self), ty, ScopeKind::Transient),
    {
        self.add(ServiceScopeDescriptior::transient(ty));
    }

    /// Makes `TService`, filed under `ty`, a singleton.
    pub fn add_singletone<TService: 'static + Send + Sync + Clone>(&mut self, ty: TypeInfo)
        requires
            old(self).wf(),
        ensures
            final(self).wf(),
            final(self).added(*old(self), ty, ScopeKind::Singletone),
            final(self)@[ty.id].scope().is_typed::<TService>(),
    {
        self.add(ServiceScopeDescriptior::singletone::<TService>(ty));
    }

    /// Makes `TService`, filed under `ty`, task-scoped.
    pub fn add_task_local<TService: 'static + Sync + Send + Clone>(&mut self, ty: TypeInfo)
        requires
            old(self).wf(),
        ensures
            final(self).wf(),
            final(self).added(*old(self), ty, ScopeKind::TaskLocal),
            final(self)@[ty.id].scope().is_typed::<TService>(),
    {
        self.add(ServiceScopeDescriptior::task_local::<TService>(ty));
    }

    /// Makes `TService`, filed under `ty`, thread-scoped.
    pub fn add_thread_local<TService: 'static + Clone>(&mut self, ty: TypeInfo)
        requires
            old(self).wf(),
        ensures
            final(self).wf(),
            final(self).added(*old(self), ty, ScopeKind::ThreadLocal),
            final(self)@[ty.id].scope().splits_typed::<TService>(),
    {
        self.add(ServiceScopeDescriptior::thread_local::<TService>(ty));
    }

    /// The policies, out of the builder.
    pub(crate) fn into_scopes(self) -> (r: TypeMap<ServiceScopeDescriptior>)
        requires
            self.wf(),
        ensures
            r.wf(),
            r@ == self@,
            forall|id: TypeId| #[trigger] r@.contains_key(id) ==> r@[id].ty().id == id,
    {
        self.scopes
    }

    /// Freezes the layer over the construction layer.
    pub fn build(self, service_layer: ServiceLayer) -> (r: ScopeLayer)
        requires
            self.wf(),
            service_layer.wf(),
        ensures
            r.wf(),
            r.scopes() == self@,
            r.services() == service_layer@,
    {
        ScopeLayer::new(self, service_layer)
    }
}

} // verus!
