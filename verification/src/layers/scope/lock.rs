//! The locks and the concurrent map behind which cached instances wait.

use crate::types::type_info::TypeInfo;
use dashmap::DashMap;
use parking_lot::{Mutex, MutexGuard};
use std::sync::Arc;
use vstd::prelude::*;

verus! {

/// `lock_api::Mutex`, which `parking_lot::Mutex` is an alias of.
#[verifier::external_type_specification]
#[verifier::external_body]
#[verifier::reject_recursive_types(R)]
#[verifier::reject_recursive_types(T)]
pub struct ExMutex<R, T: ?Sized>(parking_lot::lock_api::Mutex<R, T>);

/// `parking_lot::RawMutex`, the lock inside a `parking_lot::Mutex`.
#[verifier::external_type_specification]
#[verifier::external_body]
pub struct ExRawMutex(parking_lot::RawMutex);

/// `dashmap::DashMap`, a hash map that can be written through `&self`.
#[verifier::external_type_specification]
#[verifier::external_body]
#[verifier::reject_recursive_types(K)]
#[verifier::reject_recursive_types(V)]
#[verifier::reject_recursive_types(S)]
pub struct ExDashMap<K, V, S>(DashMap<K, V, S>);

/// A `parking_lot::MutexGuard`: the lock is held for as long as this value
/// lives. The guard's own type cannot be declared, so it is held here.
#[verifier::external_body]
#[verifier::reject_recursive_types(T)]
pub(crate) struct Locked<'a, T> {
    guard: MutexGuard<'a, T>,
}

/// The registry of one scope: a lock for each type key that was asked for.
pub(crate) type Instances<T> = DashMap<TypeInfo, Arc<Mutex<T>>, ahash::RandomState>;

/// `Mutex::new`: a lock around `value`.
#[verifier::external_body]
pub(crate) fn mutex_new<T>(value: T) -> Mutex<T> {
    Mutex::new(value)
}

/// `Mutex::lock`: waits until the lock is free and takes it. What the lock
/// guards is whatever the last holder left there. A thread that asks for a
/// lock that it holds already waits for ever; resolution never does so as
/// long as no scoped service needs itself.
#[verifier::external_body]
pub(crate) fn lock<'a, T>(mutex: &'a Mutex<T>) -> Locked<'a, T> {
    Locked { guard: mutex.lock() }
}

/// The guard's `deref_mut`: the guarded value, for as long as the lock is
/// held.
#[verifier::external_body]
pub(crate) fn state<'a, 'b, T>(locked: &'a mut Locked<'b, T>) -> &'a mut T {
    &mut *locked.guard
}

/// `DashMap::default`: a registry without locks.
#[verifier::external_body]
pub(crate) fn instances_new<T>() -> Instances<T> {
    DashMap::default()
}

/// `DashMap::entry` and `Entry::or_insert`: the lock filed under `ty`, after
/// filing `vacant` there if nothing was. No reference into the map outlives
/// the call.
#[verifier::external_body]
pub(crate) fn slot<T>(instances: &Instances<T>, ty: TypeInfo, vacant: Arc<Mutex<T>>) -> Arc<Mutex<T>> {
    Arc::clone(instances.entry(ty).or_insert(vacant).value())
}

} // verus!
