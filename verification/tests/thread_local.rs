use std::rc::Rc;
use std::sync::atomic::{AtomicUsize, Ordering};
use std::sync::{Arc, Mutex};

use xdi::builder::DiBuilder;

#[derive(Clone)]
pub struct Service1 {
    pub payload: Rc<Mutex<String>>,
}

pub trait IPayloadSrc {
    fn get(&self) -> String;
    fn set(&mut self, val: String);
}

impl IPayloadSrc for Service1 {
    fn get(&self) -> String {
        self.payload.lock().unwrap().clone()
    }

    fn set(&mut self, val: String) {
        *self.payload.lock().unwrap() = val;
    }
}

#[test]
fn set_get_thread_local_ok() {
    let mut builder = DiBuilder::new();

    builder.thread_local(|_| {
        Ok(Service1 {
            payload: Rc::new(Mutex::new("1".to_string())),
        })
    });

    let sp = builder.build();

    {
        let sp = sp.enter_thread_scope();

        let service = sp.resolve::<Service1>().unwrap();

        assert_eq!(*service.payload.lock().unwrap(), "1");

        *service.payload.lock().unwrap() = "2".to_string();

        let service = sp.resolve::<Service1>().unwrap();

        assert_eq!(*service.payload.lock().unwrap(), "2");

        let same_thread = sp.clone();

        assert_eq!(*same_thread.resolve::<Service1>().unwrap().payload.lock().unwrap(), "2");
    }

    let sp = sp.enter_thread_scope();
    let service = sp.resolve::<Service1>().unwrap();

    assert_eq!(*service.payload.lock().unwrap(), "1");
}

#[test]
fn set_get_thread_local_trait_object_ok() {
    let mut builder = DiBuilder::new();

    builder
        .thread_local(|_| {
            Ok(Service1 {
                payload: Rc::new(Mutex::new("1".to_string())),
            })
        })
        .map_as(|service| Ok(Box::new(service) as Box<dyn IPayloadSrc>));

    let sp = builder.build();

    {
        let sp = sp.enter_thread_scope();

        let mut service = sp.resolve::<Box<dyn IPayloadSrc>>().unwrap();

        assert_eq!(service.get(), "1");

        service.set("2".to_string());

        let service = sp.resolve::<Box<dyn IPayloadSrc>>().unwrap();

        assert_eq!(service.get(), "2");
    }

    let sp = sp.enter_thread_scope();
    let service = sp.resolve::<Box<dyn IPayloadSrc>>().unwrap();

    assert_eq!(service.get(), "1");
}

#[test]
fn thread_local_factory_runs_once_for_each_thread_scope() {
    let calls = Arc::new(AtomicUsize::new(0));
    let seen = calls.clone();
    let mut builder = DiBuilder::new();

    builder.thread_local(move |_| {
        seen.fetch_add(1, Ordering::SeqCst);
        Ok(Service1 {
            payload: Rc::new(Mutex::new("1".to_string())),
        })
    });

    let sp = builder.build();

    sp.resolve::<Service1>().unwrap();
    sp.resolve::<Service1>().unwrap();
    assert_eq!(calls.load(Ordering::SeqCst), 1);

    let second = sp.enter_thread_scope();
    second.resolve::<Service1>().unwrap();
    second.resolve::<Service1>().unwrap();
    assert_eq!(calls.load(Ordering::SeqCst), 2);

    let in_task = second.enter_task_scope();
    in_task.resolve::<Service1>().unwrap();
    assert_eq!(calls.load(Ordering::SeqCst), 2);
}

#[test]
fn thread_local_nested_in_a_factory_uses_the_scope_of_the_caller() {
    let mut builder = DiBuilder::new();

    builder.thread_local(|_| {
        Ok(Service1 {
            payload: Rc::new(Mutex::new("1".to_string())),
        })
    });
    builder.transient(|sp| {
        let inner: Service1 = sp.resolve()?;
        let text = inner.payload.lock().unwrap().clone();
        Ok(text)
    });

    let sp = builder.build();

    *sp.resolve::<Service1>().unwrap().payload.lock().unwrap() = "5".to_string();

    assert_eq!(sp.resolve::<String>().unwrap(), "5");
    assert_eq!(sp.enter_thread_scope().resolve::<String>().unwrap(), "1");
}
