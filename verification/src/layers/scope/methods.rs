//! The steps that a cached value goes through, with the type of the value erased.

use crate::types::boxed_service::BoxedService;
use crate::types::boxed_service_sync::SyncBoxedService;
use crate::types::error::{ServiceBuildError, ServiceBuildResult};
use crate::types::type_info::{is_id_of, TypeInfo};
use vstd::prelude::*;

verus! {

/// Takes a freshly built value into its thread-safe form.
pub trait Syncer: Send + Sync {
    /// Whether `r` is what the step can come back with.
    spec fn syncs(
        &self,
        expected: TypeInfo,
        service: BoxedService,
        r: ServiceBuildResult<SyncBoxedService>,
    ) -> bool;

    /// The same value under the same key, in thread-safe form; or the error
    /// of this boundary, where the value is not of the type of the step.
    fn sync(&self, expected: TypeInfo, service: BoxedService) -> (r: ServiceBuildResult<
        SyncBoxedService,
    >)
        ensures
            self.syncs(expected, service, r),
            r matches Ok(synced) ==> synced.ty() == service.ty(),
            r matches Err(error) ==> error == (ServiceBuildError::InvalidScopeLayerBoxedInputType {
                expected,
                found: service.ty(),
            }),
    ;
}

/// Splits a copy off a thread-safe value, which stays where it is.
pub trait SyncSplitter: Send + Sync {
    /// Whether `r` is what the step can come back with.
    spec fn splits(
        &self,
        expected: TypeInfo,
        service: SyncBoxedService,
        r: ServiceBuildResult<SyncBoxedService>,
    ) -> bool;

    /// A clone of the value, under the key of the value; or the error of this
    /// boundary, where the value is not of the type of the step.
    fn split(&self, expected: TypeInfo, service: &SyncBoxedService) -> (r: ServiceBuildResult<
        SyncBoxedService,
    >)
        ensures
            self.splits(expected, *service, r),
            r matches Ok(copy) ==> copy.ty() == service.ty(),
            r matches Err(error) ==> error == (ServiceBuildError::UnexpectedSingletoneSplitterParams {
                expected,
                found: service.ty(),
            }),
    ;
}

/// Takes a copy out of its thread-safe form.
pub trait UnSyncer: Send + Sync {
    /// Whether `r` is what the step can come back with.
    spec fn unsyncs(
        &self,
        expected: TypeInfo,
        service: SyncBoxedService,
        r: ServiceBuildResult<BoxedService>,
    ) -> bool;

    /// The same value under the same key, in plain form; or the error of this
    /// boundary, where the value is not of the type of the step.
    fn unsync(&self, expected: TypeInfo, service: SyncBoxedService) -> (r: ServiceBuildResult<
        BoxedService,
    >)
        ensures
            self.unsyncs(expected, service, r),
            r matches Ok(plain) ==> plain.ty() == service.ty(),
            r matches Err(error) ==> error == (ServiceBuildError::InvalidScopeLayerBoxedOutputType {
                expected,
                found: service.ty(),
            }),
    ;
}

/// Splits a copy off a plain value, which stays where it is.
pub trait Splitter: Send + Sync {
    /// Whether `r` is what the step can come back with.
    spec fn splits(
        &self,
        expected: TypeInfo,
        service: BoxedService,
        r: ServiceBuildResult<BoxedService>,
    ) -> bool;

    /// A clone of the value, under the key of the value; or the error of this
    /// boundary, where the value is not of the type of the step.
    fn split(&self, expected: TypeInfo, service: &BoxedService) -> (r: ServiceBuildResult<
        BoxedService,
    >)
        ensures
            self.splits(expected, *service, r),
            r matches Ok(copy) ==> copy.ty() == service.ty(),
            r matches Err(error) ==> error == (ServiceBuildError::UnexpectedSingletoneSplitterParams {
                expected,
                found: service.ty(),
            }),
    ;
}

/// A step in its box. A `Box<dyn ..>` that is moved into a field of its own
/// type goes through a coercion on the way, after which it is no longer known
/// for the value that went in; inside this struct it goes in as it is.
pub struct Erased<S: ?Sized> {
    pub step: Box<S>,
}

/// What taking `service` into thread-safe form as a `TService` comes to.
/// Where `service` holds a `TService`, which shows in the identifier of what
/// it holds, the step gives a value under the same
/// key that holds it too; where it holds none, the step fails with
/// `InvalidScopeLayerBoxedInputType`.
pub open spec fn syncs_as<TService: 'static + Send + Sync>(
    expected: TypeInfo,
    service: BoxedService,
    r: ServiceBuildResult<SyncBoxedService>,
) -> bool {
    match r {
        Ok(synced) => {
            &&& synced.ty() == service.ty()
            &&& is_id_of::<TService>(service.held())
            &&& exists|value: TService| #[trigger] service.holds(value)
            &&& forall|value: TService| #[trigger] service.holds(value) ==> synced.holds(value)
        },
        Err(error) => {
            &&& error == (ServiceBuildError::InvalidScopeLayerBoxedInputType {
                expected,
                found: service.ty(),
            })
            &&& !is_id_of::<TService>(service.held())
            &&& forall|value: TService| !#[trigger] service.holds(value)
        },
    }
}

/// What splitting a copy off `service` as a `TService` comes to. Where
/// `service` holds a `TService`, the step gives a value under the same key
/// that holds a clone of it; where it holds none, the step fails with
/// `UnexpectedSingletoneSplitterParams`.
pub open spec fn sync_splits_as<TService: 'static + Send + Sync + Clone>(
    expected: TypeInfo,
    service: SyncBoxedService,
    r: ServiceBuildResult<SyncBoxedService>,
) -> bool {
    match r {
        Ok(copy) => {
            &&& copy.ty() == service.ty()
            &&& is_id_of::<TService>(service.held())
            &&& exists|value: TService| #[trigger] service.holds(value)
            &&& forall|value: TService| #[trigger]
                service.holds(value) ==> exists|clone: TService|
                    cloned::<TService>(value, clone) && #[trigger] copy.holds(clone)
        },
        Err(error) => {
            &&& error == (ServiceBuildError::UnexpectedSingletoneSplitterParams {
                expected,
                found: service.ty(),
            })
            &&& !is_id_of::<TService>(service.held())
            &&& forall|value: TService| !#[trigger] service.holds(value)
        },
    }
}

/// What taking `service` out of thread-safe form as a `TService` comes to.
/// Where `service` holds a `TService`, which shows in the identifier of what
/// it holds, the step gives a value under the same
/// key that holds it too; where it holds none, the step fails with
/// `InvalidScopeLayerBoxedOutputType`.
pub open spec fn unsyncs_as<TService: 'static + Send + Sync>(
    expected: TypeInfo,
    service: SyncBoxedService,
    r: ServiceBuildResult<BoxedService>,
) -> bool {
    match r {
        Ok(plain) => {
            &&& plain.ty() == service.ty()
            &&& is_id_of::<TService>(service.held())
            &&& exists|value: TService| #[trigger] service.holds(value)
            &&& forall|value: TService| #[trigger] service.holds(value) ==> plain.holds(value)
        },
        Err(error) => {
            &&& error == (ServiceBuildError::InvalidScopeLayerBoxedOutputType {
                expected,
                found: service.ty(),
            })
            &&& !is_id_of::<TService>(service.held())
            &&& forall|value: TService| !#[trigger] service.holds(value)
        },
    }
}

/// What splitting a copy off `service` as a `TService` comes to. Where
/// `service` holds a `TService`, the step gives a value under the same key
/// that holds a clone of it; where it holds none, the step fails with
/// `UnexpectedSingletoneSplitterParams`.
pub open spec fn splits_as<TService: 'static + Clone>(
    expected: TypeInfo,
    service: BoxedService,
    r: ServiceBuildResult<BoxedService>,
) -> bool {
    match r {
        Ok(copy) => {
            &&& copy.ty() == service.ty()
            &&& is_id_of::<TService>(service.held())
            &&& exists|value: TService| #[trigger] service.holds(value)
            &&& forall|value: TService| #[trigger]
                service.holds(value) ==> exists|clone: TService|
                    cloned::<TService>(value, clone) && #[trigger] copy.holds(clone)
        },
        Err(error) => {
            &&& error == (ServiceBuildError::UnexpectedSingletoneSplitterParams {
                expected,
                found: service.ty(),
            })
            &&& !is_id_of::<TService>(service.held())
            &&& forall|value: TService| !#[trigger] service.holds(value)
        },
    }
}

/// The steps for values of the type `TService`.
#[verifier::reject_recursive_types(TService)]
pub struct TypedSteps<TService> {
    marker: Ghost<Option<TService>>,
}

impl<TService> TypedSteps<TService> {
    /// The steps, which are the same for every value of this type: what they
    /// do is laid down by the type alone.
    pub fn new() -> Self {
        Self { marker: Ghost(None) }
    }
}

impl<TService: 'static + Send + Sync> Syncer for TypedSteps<TService> {
    open spec fn syncs(
        &self,
        expected: TypeInfo,
        service: BoxedService,
        r: ServiceBuildResult<SyncBoxedService>,
    ) -> bool {
        syncs_as::<TService>(expected, service, r)
    }

    fn sync(&self, expected: TypeInfo, service: BoxedService) -> (r: ServiceBuildResult<
        SyncBoxedService,
    >) {
        let found = service.ty();
        match service.unbox::<TService>() {
            Ok(value) => {
                assert(service.holds(value));
                Ok(SyncBoxedService::tagged(found, value))
            },
            Err(_) => Err(ServiceBuildError::InvalidScopeLayerBoxedInputType { expected, found }),
        }
    }
}

impl<TService: 'static + Send + Sync + Clone> SyncSplitter for TypedSteps<TService> {
    open spec fn splits(
        &self,
        expected: TypeInfo,
        service: SyncBoxedService,
        r: ServiceBuildResult<SyncBoxedService>,
    ) -> bool {
        sync_splits_as::<TService>(expected, service, r)
    }

    fn split(&self, expected: TypeInfo, service: &SyncBoxedService) -> (r: ServiceBuildResult<
        SyncBoxedService,
    >) {
        let found = service.ty();
        match service.unbox_ref::<TService>() {
            Some(value) => {
                let clone = value.clone();
                let copy = SyncBoxedService::tagged(found, clone);
                assert(service.holds(*value));
                assert forall|held: TService| #[trigger] service.holds(held) implies exists|
                    clone: TService,
                |
                    cloned::<TService>(held, clone) && #[trigger] copy.holds(clone) by {
                    assert(held == *value);
                    assert(cloned::<TService>(held, clone) && copy.holds(clone));
                }
                Ok(copy)
            },
            None => Err(ServiceBuildError::UnexpectedSingletoneSplitterParams { expected, found }),
        }
    }
}

impl<TService: 'static + Send + Sync> UnSyncer for TypedSteps<TService> {
    open spec fn unsyncs(
        &self,
        expected: TypeInfo,
        service: SyncBoxedService,
        r: ServiceBuildResult<BoxedService>,
    ) -> bool {
        unsyncs_as::<TService>(expected, service, r)
    }

    fn unsync(&self, expected: TypeInfo, service: SyncBoxedService) -> (r: ServiceBuildResult<
        BoxedService,
    >) {
        let found = service.ty();
        match service.unbox::<TService>() {
            Ok(value) => {
                assert(service.holds(value));
                Ok(BoxedService::tagged(found, value))
            },
            Err(_) => Err(ServiceBuildError::InvalidScopeLayerBoxedOutputType { expected, found }),
        }
    }
}

/// The one step of the thread-scoped policy, for values of the type
/// `TService`, which need not be thread-safe.
#[verifier::reject_recursive_types(TService)]
pub struct TypedSplit<TService> {
    marker: Ghost<Option<TService>>,
}

impl<TService> TypedSplit<TService> {
    /// The step, which is the same for every value of this type: what it
    /// does is laid down by the type alone.
    pub fn new() -> Self {
        Self { marker: Ghost(None) }
    }
}

impl<TService: 'static + Clone> Splitter for TypedSplit<TService> {
    open spec fn splits(
        &self,
        expected: TypeInfo,
        service: BoxedService,
        r: ServiceBuildResult<BoxedService>,
    ) -> bool {
        splits_as::<TService>(expected, service, r)
    }

    fn split(&self, expected: TypeInfo, service: &BoxedService) -> (r: ServiceBuildResult<
        BoxedService,
    >) {
        let found = service.ty();
        match service.unbox_ref::<TService>() {
            Some(value) => {
                let clone = value.clone();
                let copy = BoxedService::tagged(found, clone);
                assert(service.holds(*value));
                assert forall|held: TService| #[trigger] service.holds(held) implies exists|
                    clone: TService,
                |
                    cloned::<TService>(held, clone) && #[trigger] copy.holds(clone) by {
                    assert(held == *value);
                    assert(cloned::<TService>(held, clone) && copy.holds(clone));
                }
                Ok(copy)
            },
            None => Err(ServiceBuildError::UnexpectedSingletoneSplitterParams { expected, found }),
        }
    }
}

} // verus!
