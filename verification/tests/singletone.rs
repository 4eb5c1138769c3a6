use std::sync::atomic::{AtomicUsize, Ordering};
use std::sync::{Arc, Mutex};

use xdi::builder::DiBuilder;
use xdi::layers::scope::singleton::SingletoneProducer;
use xdi::layers::scope::task_local::{TaskLocalCtrMethods, TaskLocalProducer};
use xdi::layers::scope::thread_local::{ThreadLocalCtrMethods, ThreadLocalCtx, ThreadLocalProducer};
use xdi::layers::scope::{ScopeKind, ServiceScopeDescriptior};
use xdi::layers::service::ServiceDescriptior;
use xdi::types::boxed_service_sync::SyncBoxedService;
use xdi::types::error::ServiceBuildResult;
use xdi::types::type_info::TypeInfo;

pub struct Service1 {
    pub payload: String,
}

#[test]
pub fn set_get_singletone_ok() {
    let mut builder = DiBuilder::new();

    builder.singletone(|_| {
        Ok(Arc::new(Mutex::new(Service1 {
            payload: "1".to_string(),
        })))
    });

    let sp = builder.build();

    let service = sp.resolve::<Arc<Mutex<Service1>>>().unwrap();

    assert_eq!(service.lock().unwrap().payload, "1");

    service.lock().unwrap().payload = "2".to_string();

    let service = sp.resolve::<Arc<Mutex<Service1>>>().unwrap();

    assert_eq!(service.lock().unwrap().payload, "2");
}

#[test]
pub fn singletone_factory_runs_once() {
    let calls = Arc::new(AtomicUsize::new(0));
    let seen = calls.clone();
    let mut builder = DiBuilder::new();

    builder.singletone(move |_| {
        seen.fetch_add(1, Ordering::SeqCst);
        Ok(Arc::new(Mutex::new(0u32)))
    });

    let sp = builder.build();

    for _ in 0..5 {
        sp.resolve::<Arc<Mutex<u32>>>().unwrap();
    }
    sp.enter_thread_scope().resolve::<Arc<Mutex<u32>>>().unwrap();
    sp.enter_task_scope().resolve::<Arc<Mutex<u32>>>().unwrap();

    assert_eq!(calls.load(Ordering::SeqCst), 1);
}

#[test]
pub fn singletone_is_shared_by_every_context_of_the_container() {
    let mut builder = DiBuilder::new();

    builder.singletone(|_| Ok(Arc::new(Mutex::new(1u32))));

    let sp = builder.build();
    let other = sp.share().bind(std::rc::Rc::new(ThreadLocalCtx::new()), None);

    *sp.resolve::<Arc<Mutex<u32>>>().unwrap().lock().unwrap() = 9;

    assert_eq!(*other.resolve::<Arc<Mutex<u32>>>().unwrap().lock().unwrap(), 9);
}

#[test]
pub fn singletone_that_failed_is_built_by_the_next_resolution() {
    let calls = Arc::new(AtomicUsize::new(0));
    let seen = calls.clone();
    let mut builder = DiBuilder::new();

    builder.singletone(move |_| {
        if seen.fetch_add(1, Ordering::SeqCst) == 0 {
            Err(anyhow::Error::msg("not yet").into())
        } else {
            Ok(7u32)
        }
    });

    let sp = builder.build();

    assert!(sp.resolve::<u32>().is_err());
    assert_eq!(sp.resolve::<u32>().unwrap(), 7);
    assert_eq!(sp.resolve::<u32>().unwrap(), 7);
    assert_eq!(calls.load(Ordering::SeqCst), 2);
}

#[test]
pub fn singletone_factory_may_resolve_another_singletone() {
    let mut builder = DiBuilder::new();

    builder.singletone(|_| Ok(Arc::new(Mutex::new(1u32))));
    builder.singletone(|sp| {
        let inner: Arc<Mutex<u32>> = sp.resolve()?;
        Ok(Arc::new((inner, Mutex::new("outer".to_string()))))
    });

    let sp = builder.build();

    let outer = sp.resolve::<Arc<(Arc<Mutex<u32>>, Mutex<String>)>>().unwrap();
    let inner = sp.resolve::<Arc<Mutex<u32>>>().unwrap();

    *inner.lock().unwrap() = 4;

    assert_eq!(*outer.0.lock().unwrap(), 4);
    assert_eq!(*outer.1.lock().unwrap(), "outer");
}

#[test]
pub fn registering_again_replaces_the_policy() {
    let calls = Arc::new(AtomicUsize::new(0));
    let seen = calls.clone();
    let mut builder = DiBuilder::new();

    builder.transient(|_| Ok(Arc::new(Mutex::new(0u32))));
    builder.singletone(move |_| {
        seen.fetch_add(1, Ordering::SeqCst);
        Ok(Arc::new(Mutex::new(1u32)))
    });

    let sp = builder.build();

    *sp.resolve::<Arc<Mutex<u32>>>().unwrap().lock().unwrap() = 8;

    assert_eq!(*sp.resolve::<Arc<Mutex<u32>>>().unwrap().lock().unwrap(), 8);
    assert_eq!(calls.load(Ordering::SeqCst), 1);
}

#[test]
pub fn scope_descriptor_knows_its_key_and_policy() {
    let ty = TypeInfo::from_type::<u32>();

    let descriptor = ServiceScopeDescriptior::transient(ty);
    assert!(descriptor.ty() == ty);
    assert_eq!(descriptor.scope().kind(), ScopeKind::Transient);
    assert_eq!(ServiceScopeDescriptior::singletone::<u32>(ty).scope().kind(), ScopeKind::Singletone);
    assert_eq!(ServiceScopeDescriptior::task_local::<u32>(ty).scope().kind(), ScopeKind::TaskLocal);
    assert_eq!(ServiceScopeDescriptior::thread_local::<u32>(ty).scope().kind(), ScopeKind::ThreadLocal);

    assert!(SingletoneProducer::Pending.pending());
    assert!(!SingletoneProducer::Created {
        instance: SyncBoxedService::new(1u32)
    }
    .pending());
}

#[test]
pub fn producers_build_first_and_split_afterwards() {

    let calls = Arc::new(AtomicUsize::new(0));
    let seen = calls.clone();
    let ty = TypeInfo::from_type::<Arc<Mutex<u32>>>();
    let descriptor = ServiceDescriptior::from_factory(ty, move |_| {
        seen.fetch_add(1, Ordering::SeqCst);
        Ok(Arc::new(Mutex::new(0u32)))
    });
    let sp = DiBuilder::new().build();
    let sync_methods = TaskLocalCtrMethods::typed::<Arc<Mutex<u32>>>();
    let methods = ThreadLocalCtrMethods::typed::<Arc<Mutex<u32>>>();

    let mut singletone = SingletoneProducer::Pending;
    let first = singletone.build(&descriptor, sp.clone(), &sync_methods).ok().unwrap();
    assert!(!singletone.pending());
    *first.unbox::<Arc<Mutex<u32>>>().ok().unwrap().lock().unwrap() = 1;
    let second = singletone.build(&descriptor, sp.clone(), &sync_methods).ok().unwrap();
    assert_eq!(*second.unbox::<Arc<Mutex<u32>>>().ok().unwrap().lock().unwrap(), 1);
    assert_eq!(calls.load(Ordering::SeqCst), 1);

    let mut task = TaskLocalProducer::Pending;
    let first = task.produce(&descriptor, sp.clone(), &sync_methods).ok().unwrap();
    assert!(matches!(task, TaskLocalProducer::Created { .. }));
    *first.unbox::<Arc<Mutex<u32>>>().ok().unwrap().lock().unwrap() = 2;
    let second = task.produce(&descriptor, sp.clone(), &sync_methods).ok().unwrap();
    assert_eq!(*second.unbox::<Arc<Mutex<u32>>>().ok().unwrap().lock().unwrap(), 2);
    assert_eq!(calls.load(Ordering::SeqCst), 2);

    let mut thread = ThreadLocalProducer::Pending;
    let first = thread.produce(&descriptor, sp.clone(), &methods).ok().unwrap();
    assert!(matches!(thread, ThreadLocalProducer::Created { .. }));
    *first.unbox::<Arc<Mutex<u32>>>().ok().unwrap().lock().unwrap() = 3;
    let second = thread.produce(&descriptor, sp, &methods).ok().unwrap();
    assert_eq!(*second.unbox::<Arc<Mutex<u32>>>().ok().unwrap().lock().unwrap(), 3);
    assert_eq!(calls.load(Ordering::SeqCst), 3);
}

#[test]
pub fn producer_that_fails_stays_pending() {

    let ty = TypeInfo::from_type::<u32>();
    let descriptor = ServiceDescriptior::from_factory(ty, |_| -> ServiceBuildResult<u32> {
        Err(anyhow::Error::msg("fails").into())
    });
    let methods = TaskLocalCtrMethods::typed::<u32>();
    let mut producer = TaskLocalProducer::Pending;

    assert!(producer.produce(&descriptor, DiBuilder::new().build(), &methods).is_err());
    assert!(matches!(producer, TaskLocalProducer::Pending));
}
