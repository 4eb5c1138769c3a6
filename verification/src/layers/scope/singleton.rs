//! The singleton policy: one cached instance for the whole container.

use super::task_local::TaskLocalCtrMethods;
use crate::layers::service::ServiceDescriptior;
use crate::types::boxed_service::BoxedService;
use crate::types::boxed_service_sync::SyncBoxedService;
use crate::types::error::ServiceBuildResult;
use crate::ServiceProvider;
use vstd::prelude::*;

verus! {

/// What the container caches for one singleton type. The value waits in
/// thread-safe form, under the same three steps as a task-scoped one.
pub enum SingletoneProducer {
    /// Nothing was built yet.
    Pending,
    /// The instance that every later resolution is split from.
    Created { instance: SyncBoxedService },
}

impl SingletoneProducer {
    /// The cached instance, if there is one.
    pub open spec fn cached(self) -> Option<SyncBoxedService> {
        match self {
            SingletoneProducer::Pending => None,
            SingletoneProducer::Created { instance } => Some(instance),
        }
    }

    /// Whether nothing was built yet.
    pub fn pending(&self) -> (r: bool)
        ensures
            r == (*self is Pending),
    {
        matches!(self, SingletoneProducer::Pending)
    }

    /// Resolves once against this cache: the first call that succeeds builds
    /// the instance, and every later one splits a copy off it. Once built,
    /// the instance stays, whatever comes of a later call; a call that fails
    /// before anything was built leaves nothing built.
    pub fn build(
        &mut self,
        service_descriptor: &ServiceDescriptior,
        sp: ServiceProvider,
        ctr_methods: &TaskLocalCtrMethods,
    ) -> (r: ServiceBuildResult<BoxedService>)
        ensures
            ctr_methods.produces(
                old(self).cached(),
                *service_descriptor,
                sp,
                final(self).cached(),
                r,
            ),
            r matches Ok(copy) ==> copy.ty().same(service_descriptor.ty()),
            r is Ok ==> *final(self) is Created,
            r is Err ==> *final(self) == *old(self),
            *old(self) is Created ==> *final(self) == *old(self),
            *old(self) is Pending ==> (final(self).cached() matches Some(kept) ==> kept.ty()
                == service_descriptor.ty()),
    {
        let mut old_val = SingletoneProducer::Pending;
        core::mem::swap(self, &mut old_val);
        let cached = match old_val {
            SingletoneProducer::Pending => None,
            SingletoneProducer::Created { instance } => Some(instance),
        };
        let (next, r) = ctr_methods.produce(cached, service_descriptor, sp);
        match next {
            Some(instance) => {
                *self = SingletoneProducer::Created { instance };
            },
            None => {},
        }
        r
    }
}

} // verus!
