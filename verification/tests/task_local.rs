use std::sync::atomic::{AtomicUsize, Ordering};
use std::sync::{Arc, Mutex};

use xdi::builder::DiBuilder;
use xdi::types::error::ServiceBuildError;

#[derive(Clone)]
pub struct Service1 {
    pub payload: Arc<Mutex<String>>,
}

pub trait IPayloadSrc {
    fn get(&self) -> String;
    fn set(&mut self, val: String);
}

impl IPayloadSrc for Service1 {
    fn get(&self) -> String {
        self.payload.lock().unwrap().clone()
    }

    fn set(&mut self, val: String) {
        *self.payload.lock().unwrap() = val;
    }
}

#[test]
fn set_get_task_local_ok() {
    let mut builder = DiBuilder::new();

    builder.task_local(|_| {
        Ok(Service1 {
            payload: Arc::new(Mutex::new("1".to_string())),
        })
    });

    let sp = builder.build();

    {
        let sp = sp.enter_task_scope();

        let service = sp.resolve::<Service1>().unwrap();

        assert_eq!(*service.payload.lock().unwrap(), "1");

        *service.payload.lock().unwrap() = "2".to_string();

        let service = sp.resolve::<Service1>().unwrap();

        assert_eq!(*service.payload.lock().unwrap(), "2");
    }

    let sp = sp.enter_task_scope();
    let service = sp.resolve::<Service1>().unwrap();

    assert_eq!(*service.payload.lock().unwrap(), "1");
}

#[test]
fn set_get_task_local_trait_object_ok() {
    let mut builder = DiBuilder::new();

    builder
        .task_local(|_| {
            Ok(Service1 {
                payload: Arc::new(Mutex::new("1".to_string())),
            })
        })
        .map_as(|service| Ok(Box::new(service) as Box<dyn IPayloadSrc>));

    let sp = builder.build();

    {
        let sp = sp.enter_task_scope();

        let mut service = sp.resolve::<Box<dyn IPayloadSrc>>().unwrap();

        assert_eq!(service.get(), "1");

        service.set("2".to_string());

        let service = sp.resolve::<Box<dyn IPayloadSrc>>().unwrap();

        assert_eq!(service.get(), "2");
    }

    let sp = sp.enter_task_scope();
    let service = sp.resolve::<Box<dyn IPayloadSrc>>().unwrap();

    assert_eq!(service.get(), "1");
}

#[test]
fn task_local_outside_a_task_scope_fails() {
    let mut builder = DiBuilder::new();

    builder.task_local(|_| {
        Ok(Service1 {
            payload: Arc::new(Mutex::new("1".to_string())),
        })
    });

    let sp = builder.build();

    match sp.resolve::<Service1>() {
        Err(ServiceBuildError::TaskLocalContextNotInitialized { ty }) => {
            assert!(ty == xdi::types::type_info::TypeInfo::from_type::<Service1>());
        }
        _ => panic!("expected TaskLocalContextNotInitialized"),
    }
    assert!(sp.enter_thread_scope().resolve::<Service1>().is_err());
    assert!(sp.enter_task_scope().resolve::<Service1>().is_ok());
}

#[test]
fn task_local_factory_runs_once_for_each_task_scope() {
    let calls = Arc::new(AtomicUsize::new(0));
    let seen = calls.clone();
    let mut builder = DiBuilder::new();

    builder.task_local(move |_| {
        seen.fetch_add(1, Ordering::SeqCst);
        Ok(Service1 {
            payload: Arc::new(Mutex::new("1".to_string())),
        })
    });

    let sp = builder.build();
    let first = sp.enter_task_scope();

    first.resolve::<Service1>().unwrap();
    first.resolve::<Service1>().unwrap();
    first.enter_thread_scope().resolve::<Service1>().unwrap();
    assert_eq!(calls.load(Ordering::SeqCst), 1);

    let second = sp.enter_task_scope();
    second.resolve::<Service1>().unwrap();
    second.clone().resolve::<Service1>().unwrap();
    assert_eq!(calls.load(Ordering::SeqCst), 2);
}

#[test]
fn task_local_nested_in_a_factory_uses_the_scope_of_the_caller() {
    let mut builder = DiBuilder::new();

    builder.task_local(|_| {
        Ok(Service1 {
            payload: Arc::new(Mutex::new("1".to_string())),
        })
    });
    builder.transient(|sp| {
        let inner: Service1 = sp.resolve()?;
        let text = inner.payload.lock().unwrap().clone();
        Ok(text)
    });

    let sp = builder.build();
    let scope = sp.enter_task_scope();

    *scope.resolve::<Service1>().unwrap().payload.lock().unwrap() = "5".to_string();

    assert_eq!(scope.resolve::<String>().unwrap(), "5");
    assert_eq!(sp.enter_task_scope().resolve::<String>().unwrap(), "1");
    assert!(sp.resolve::<String>().is_err());
}
