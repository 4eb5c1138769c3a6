use std::sync::Arc;

use xdi::builder::DiBuilder;
use xdi::layers::mapping::{take, take_all, MappingLayerBuilder};
use xdi::layers::scope::builder::ScopeLayerBuilder;
use xdi::layers::scope::methods::{SyncSplitter, Syncer, Splitter, TypedSplit, TypedSteps, UnSyncer};
use xdi::layers::scope::singleton::SingletoneProducer;
use xdi::layers::scope::task_local::TaskLocalCtrMethods;
use xdi::layers::scope::thread_local::ThreadLocalCtrMethods;
use xdi::layers::service::{ServiceDescriptior, ServiceLayerBuilder};
use xdi::types::boxed_service::BoxedService;
use xdi::types::boxed_service_sync::SyncBoxedService;
use xdi::types::error::{ServiceBuildError, ServiceBuildResult};
use xdi::types::type_info::TypeInfo;
use xdi::{ServiceProvider, SharedProvider};

#[derive(Clone)]
struct Service {
    payload: String,
}

#[derive(Clone)]
struct Stranger;

fn empty_provider() -> ServiceProvider {
    DiBuilder::new().build()
}

fn service_ctr(_sp: ServiceProvider) -> ServiceBuildResult<Service> {
    Ok(Service { payload: "1".to_string() })
}

#[test]
fn shared_provider_may_cross_threads() {
    fn crosses<T: Send + Sync + Clone>() {}

    crosses::<SharedProvider>();
}

#[test]
fn unregistered_type_is_mapping_not_found() {
    let sp = empty_provider();
    let ty = TypeInfo::from_type::<Service>();

    match sp.resolve_raw(ty) {
        Err(ServiceBuildError::MappingNotFound { ty: missing }) => assert!(missing == ty),
        _ => panic!("expected MappingNotFound"),
    }
    assert!(matches!(
        sp.resolve::<Service>(),
        Err(ServiceBuildError::MappingNotFound { .. })
    ));
    assert!(matches!(
        sp.resolve_all_raw(ty),
        Err(ServiceBuildError::MappingNotFound { .. })
    ));
    assert!(matches!(
        sp.resolve_all::<Service>(),
        Err(ServiceBuildError::MappingNotFound { .. })
    ));
}

#[test]
fn mapping_from_a_type_without_policy_is_scope_not_found() {
    let src = TypeInfo::from_type::<Service>();
    let dest = TypeInfo::from_type::<String>();
    let mut services = ServiceLayerBuilder::new();
    services.add_service(src, service_ctr);
    let scopes = ScopeLayerBuilder::new();
    let mut mappings = MappingLayerBuilder::new();
    mappings.add_mapping(src, dest, |service: Service| Ok(service.payload));

    let layers = mappings.build(scopes.build(services.build()));

    match layers.resolve_raw(dest, empty_provider()) {
        Err(ServiceBuildError::ScopeNotFound { ty }) => assert!(ty == src),
        _ => panic!("expected ScopeNotFound"),
    }
    match layers.resolve_all_raw(dest, empty_provider()) {
        Err(ServiceBuildError::ScopeNotFound { ty }) => assert!(ty == src),
        _ => panic!("expected ScopeNotFound"),
    }
}

#[test]
fn policy_without_constructor_is_service_not_found() {
    let src = TypeInfo::from_type::<Service>();
    let services = ServiceLayerBuilder::new();
    let mut scopes = ScopeLayerBuilder::new();
    scopes.add_transient(src);
    let mut mappings = MappingLayerBuilder::new();
    mappings.add_identity(src);

    let layers = mappings.build(scopes.build(services.build()));

    match layers.resolve_raw(src, empty_provider()) {
        Err(ServiceBuildError::ServiceNotFound { ty }) => assert!(ty == src),
        _ => panic!("expected ServiceNotFound"),
    }
}

#[test]
fn service_layer_get_finds_what_was_added() {
    let ty = TypeInfo::from_type::<Service>();
    let other = TypeInfo::from_type::<Stranger>();
    let mut services = ServiceLayerBuilder::new();
    services.add_service(ty, service_ctr);
    let layer = services.build();

    let descriptor = layer.get(ty).ok().expect("the constructor was added");

    assert!(descriptor.ty() == ty);
    let built = descriptor.build(empty_provider()).ok().unwrap();
    assert!(built.ty() == ty);
    assert_eq!(built.unbox::<Service>().ok().unwrap().payload, "1");
    let built = descriptor.factory().build(other, empty_provider()).ok().unwrap();
    assert!(built.ty() == other);

    match layer.get(other) {
        Err(ServiceBuildError::ServiceNotFound { ty }) => assert!(ty == other),
        _ => panic!("expected ServiceNotFound"),
    }
}

#[test]
fn converter_for_another_source_type_is_invalid_mapping_input() {
    let src = TypeInfo::from_type::<Service>();
    let dest = TypeInfo::from_type::<String>();
    let mut services = ServiceLayerBuilder::new();
    services.add_service(src, service_ctr);
    let mut scopes = ScopeLayerBuilder::new();
    scopes.add_transient(src);
    let mut mappings = MappingLayerBuilder::new();
    mappings.add_mapping(src, dest, |_: Stranger| Ok("never".to_string()));

    let layers = mappings.build(scopes.build(services.build()));

    match layers.resolve_raw(dest, empty_provider()) {
        Err(ServiceBuildError::InvalidMappingLayerBoxedInputType { expected, found }) => {
            assert!(expected == src);
            assert!(found == src);
        }
        _ => panic!("expected InvalidMappingLayerBoxedInputType"),
    }
}

#[test]
fn value_of_another_type_is_invalid_mapping_output() {
    let asked = TypeInfo::from_type::<Stranger>();
    let boxed = BoxedService::new(Service { payload: "1".to_string() });

    match take::<Stranger>(asked, Ok(boxed)) {
        Err(ServiceBuildError::InvalidMappingLayerBoxedOutputType { expected, found }) => {
            assert!(expected == asked);
            assert!(found == TypeInfo::from_type::<Service>());
        }
        _ => panic!("expected InvalidMappingLayerBoxedOutputType"),
    }

    let list = vec![BoxedService::new(1u32), BoxedService::new(Service { payload: "1".to_string() })];

    match take_all::<u32>(TypeInfo::from_type::<u32>(), Ok(list)) {
        Err(ServiceBuildError::InvalidMappingLayerBoxedOutputType { expected, found }) => {
            assert!(expected == TypeInfo::from_type::<u32>());
            assert!(found == TypeInfo::from_type::<Service>());
        }
        _ => panic!("expected InvalidMappingLayerBoxedOutputType"),
    }
}

#[test]
fn take_hands_values_and_failures_on() {
    let ty = TypeInfo::from_type::<u32>();

    assert_eq!(take::<u32>(ty, Ok(BoxedService::new(5u32))).ok(), Some(5));
    assert!(matches!(
        take::<u32>(ty, Err(ServiceBuildError::ScopeNotFound { ty })),
        Err(ServiceBuildError::ScopeNotFound { .. })
    ));
    assert_eq!(
        take_all::<u32>(ty, Ok(vec![BoxedService::new(5u32), BoxedService::new(6u32)])).ok(),
        Some(vec![5, 6])
    );
    assert_eq!(take_all::<u32>(ty, Ok(Vec::new())).ok(), Some(Vec::new()));
    assert!(matches!(
        take_all::<u32>(ty, Err(ServiceBuildError::MappingNotFound { ty })),
        Err(ServiceBuildError::MappingNotFound { .. })
    ));
}

#[test]
fn singletone_policy_for_another_type_is_invalid_scope_input() {
    let ty = TypeInfo::from_type::<Service>();
    let mut services = ServiceLayerBuilder::new();
    services.add_service(ty, service_ctr);
    let mut scopes = ScopeLayerBuilder::new();
    scopes.add_singletone::<Stranger>(ty);
    let mut mappings = MappingLayerBuilder::new();
    mappings.add_identity(ty);

    let layers = mappings.build(scopes.build(services.build()));

    for _ in 0..2 {
        match layers.resolve_raw(ty, empty_provider()) {
            Err(ServiceBuildError::InvalidScopeLayerBoxedInputType { expected, found }) => {
                assert!(expected == ty);
                assert!(found == ty);
            }
            _ => panic!("expected InvalidScopeLayerBoxedInputType"),
        }
    }
}

#[test]
fn thread_local_policy_for_another_type_is_unexpected_splitter_params() {
    let ty = TypeInfo::from_type::<Service>();
    let mut services = ServiceLayerBuilder::new();
    services.add_service(ty, service_ctr);
    let mut scopes = ScopeLayerBuilder::new();
    scopes.add_thread_local::<Stranger>(ty);
    let mut mappings = MappingLayerBuilder::new();
    mappings.add_identity(ty);

    let layers = mappings.build(scopes.build(services.build()));

    match layers.resolve_raw(ty, empty_provider()) {
        Err(ServiceBuildError::UnexpectedSingletoneSplitterParams { expected, found }) => {
            assert!(expected == ty);
            assert!(found == ty);
        }
        _ => panic!("expected UnexpectedSingletoneSplitterParams"),
    }
}

#[test]
fn cached_instance_under_a_foreign_key_is_refused_and_kept() {
    let ty = TypeInfo::from_type::<Service>();
    let descriptor = ServiceDescriptior::from_factory(ty, service_ctr);
    let methods = TaskLocalCtrMethods::typed::<Service>();
    let foreign = SyncBoxedService::new(Stranger);

    let (next, r) = methods.produce(Some(foreign), &descriptor, empty_provider());

    match r {
        Err(ServiceBuildError::UnexpectedSingletoneSplitterParams { expected, found }) => {
            assert!(expected == ty);
            assert!(found == TypeInfo::from_type::<Stranger>());
        }
        _ => panic!("expected UnexpectedSingletoneSplitterParams"),
    }
    assert!(next.expect("the instance stays cached").unbox::<Stranger>().is_ok());

    let methods = ThreadLocalCtrMethods::typed::<Service>();
    let (next, r) = methods.produce(Some(BoxedService::new(Stranger)), &descriptor, empty_provider());

    assert!(matches!(
        r,
        Err(ServiceBuildError::UnexpectedSingletoneSplitterParams { .. })
    ));
    assert!(next.expect("the instance stays cached").unbox::<Stranger>().is_ok());
}

#[test]
fn failure_after_the_instance_was_built_keeps_the_instance() {
    let ty = TypeInfo::from_type::<Service>();
    let descriptor = ServiceDescriptior::from_factory(ty, service_ctr);
    let never = ServiceDescriptior::from_factory(ty, |_| -> ServiceBuildResult<Service> {
        Err(anyhow::Error::msg("the constructor is not to be called again").into())
    });
    let good = TaskLocalCtrMethods::typed::<Service>();
    let bad = TaskLocalCtrMethods::new(
        Box::new(TypedSteps::<Service>::new()),
        Box::new(TypedSteps::<Service>::new()),
        Box::new(TypedSteps::<Stranger>::new()),
    );

    let (cached, first) = good.produce(None, &descriptor, empty_provider());
    assert!(first.is_ok());

    let (cached, second) = bad.produce(cached, &never, empty_provider());
    match second {
        Err(ServiceBuildError::InvalidScopeLayerBoxedOutputType { expected, found }) => {
            assert!(expected == ty);
            assert!(found == ty);
        }
        _ => panic!("expected InvalidScopeLayerBoxedOutputType"),
    }
    assert!(cached.is_some());

    let (cached, third) = good.produce(cached, &never, empty_provider());
    assert_eq!(third.ok().unwrap().unbox::<Service>().ok().unwrap().payload, "1");
    assert!(cached.is_some());

    let mut producer = SingletoneProducer::Pending;
    assert!(producer.build(&descriptor, empty_provider(), &good).is_ok());
    assert!(producer.build(&never, empty_provider(), &bad).is_err());
    assert!(!producer.pending());
    assert!(producer.build(&never, empty_provider(), &good).is_ok());
}

#[test]
fn steps_refuse_a_value_of_another_type() {
    let expected = TypeInfo::from_type::<Service>();
    let found = TypeInfo::from_type::<Stranger>();
    let steps = TypedSteps::<Service>::new();

    match Syncer::sync(&steps, expected, BoxedService::new(Stranger)) {
        Err(ServiceBuildError::InvalidScopeLayerBoxedInputType { expected: e, found: f }) => {
            assert!(e == expected && f == found);
        }
        _ => panic!("expected InvalidScopeLayerBoxedInputType"),
    }
    match SyncSplitter::split(&steps, expected, &SyncBoxedService::new(Stranger)) {
        Err(ServiceBuildError::UnexpectedSingletoneSplitterParams { expected: e, found: f }) => {
            assert!(e == expected && f == found);
        }
        _ => panic!("expected UnexpectedSingletoneSplitterParams"),
    }
    match UnSyncer::unsync(&steps, expected, SyncBoxedService::new(Stranger)) {
        Err(ServiceBuildError::InvalidScopeLayerBoxedOutputType { expected: e, found: f }) => {
            assert!(e == expected && f == found);
        }
        _ => panic!("expected InvalidScopeLayerBoxedOutputType"),
    }
    match Splitter::split(&TypedSplit::<Service>::new(), expected, &BoxedService::new(Stranger)) {
        Err(ServiceBuildError::UnexpectedSingletoneSplitterParams { expected: e, found: f }) => {
            assert!(e == expected && f == found);
        }
        _ => panic!("expected UnexpectedSingletoneSplitterParams"),
    }

    let service = BoxedService::new(Service { payload: "kept".to_string() });
    let synced = Syncer::sync(&steps, expected, service).ok().unwrap();
    let copy = SyncSplitter::split(&steps, expected, &synced).ok().unwrap();
    assert!(copy.ty() == expected);
    assert_eq!(synced.unbox_ref::<Service>().unwrap().payload, "kept");
    let plain = UnSyncer::unsync(&steps, expected, copy).ok().unwrap();
    assert_eq!(plain.unbox_ref::<Service>().unwrap().payload, "kept");
    assert!(plain.unbox_ref::<Stranger>().is_none());
    assert_eq!(plain.unbox::<Service>().ok().unwrap().payload, "kept");
}

#[test]
fn unsyncer_for_another_type_is_invalid_scope_output() {
    let ty = TypeInfo::from_type::<Service>();
    let descriptor = ServiceDescriptior::from_factory(ty, service_ctr);
    let methods = TaskLocalCtrMethods::new(
        Box::new(TypedSteps::<Service>::new()),
        Box::new(TypedSteps::<Service>::new()),
        Box::new(TypedSteps::<Stranger>::new()),
    );

    let (next, r) = methods.produce(None, &descriptor, empty_provider());

    assert!(next.is_none());
    match r {
        Err(ServiceBuildError::InvalidScopeLayerBoxedOutputType { expected, found }) => {
            assert!(expected == ty);
            assert!(found == ty);
        }
        _ => panic!("expected InvalidScopeLayerBoxedOutputType"),
    }
}

#[test]
fn produce_builds_once_and_then_splits_the_cache() {
    let ty = TypeInfo::from_type::<Arc<String>>();
    let descriptor =
        ServiceDescriptior::from_factory(ty, |_| Ok(Arc::new("built".to_string())));
    let methods = TaskLocalCtrMethods::typed::<Arc<String>>();

    let (next, first) = methods.produce(None, &descriptor, empty_provider());
    let first = first.ok().unwrap().unbox::<Arc<String>>().ok().unwrap();
    let cached = next.expect("a success leaves an instance cached");

    assert!(cached.ty() == ty);
    assert_eq!(*first, "built");

    let never = ServiceDescriptior::from_factory(ty, |_| -> ServiceBuildResult<Arc<String>> {
        Err(anyhow::Error::msg("the constructor is not to be called again").into())
    });
    let (next, second) = methods.produce(Some(cached), &never, empty_provider());
    let second = second.ok().unwrap().unbox::<Arc<String>>().ok().unwrap();

    assert!(next.is_some());
    assert!(Arc::ptr_eq(&first, &second));

    let split = ThreadLocalCtrMethods::new(Box::new(TypedSplit::<Arc<String>>::new()));
    let (next, third) = split.produce(Some(BoxedService::new(second)), &never, empty_provider());

    assert!(next.is_some());
    assert!(Arc::ptr_eq(&first, &third.ok().unwrap().unbox::<Arc<String>>().ok().unwrap()));
}

#[test]
fn error_of_a_constructor_comes_back_unchanged() {
    let mut builder = DiBuilder::new();

    builder.transient(|_| -> ServiceBuildResult<Service> {
        Err(anyhow::Error::msg("no service today").into())
    });
    builder.transient(|sp| -> ServiceBuildResult<Stranger> {
        let _: Service = sp.resolve()?;
        Ok(Stranger)
    });

    let sp = builder.build();

    match sp.resolve::<Service>() {
        Err(ServiceBuildError::Custom(error)) => assert_eq!(error.to_string(), "no service today"),
        _ => panic!("expected Custom"),
    }
    match sp.resolve::<Stranger>() {
        Err(ServiceBuildError::Custom(error)) => assert_eq!(error.to_string(), "no service today"),
        _ => panic!("expected Custom"),
    }
    assert!(matches!(
        sp.resolve_all::<Stranger>(),
        Err(ServiceBuildError::Custom(_))
    ));
}

#[test]
fn error_of_a_converter_comes_back_unchanged() {
    let mut builder = DiBuilder::new();

    builder
        .transient(service_ctr)
        .map_as(|_| -> ServiceBuildResult<Stranger> { Err(anyhow::Error::msg("no").into()) });

    let sp = builder.build();

    assert!(sp.resolve::<Service>().is_ok());
    match sp.resolve::<Stranger>() {
        Err(ServiceBuildError::Custom(error)) => assert_eq!(error.to_string(), "no"),
        _ => panic!("expected Custom"),
    }
}

#[test]
fn resolve_all_stops_at_the_first_mapping_that_fails() {
    let mut builder = DiBuilder::new();

    builder.transient(service_ctr).map_as(|service| Ok(service.payload));
    builder
        .transient(|_| Ok(1u8))
        .map_as(|_| -> ServiceBuildResult<String> { Err(anyhow::Error::msg("second").into()) });
    builder
        .transient(|_| Ok(2u16))
        .map_as(|_| -> ServiceBuildResult<String> { Err(anyhow::Error::msg("third").into()) });

    let sp = builder.build();

    assert_eq!(sp.resolve::<String>().unwrap(), "1");
    match sp.resolve_all::<String>() {
        Err(ServiceBuildError::Custom(error)) => assert_eq!(error.to_string(), "second"),
        _ => panic!("expected Custom"),
    }
}

#[test]
fn anyhow_error_converts_into_custom() {
    let error: ServiceBuildError = anyhow::Error::msg("wrapped").into();

    match error {
        ServiceBuildError::Custom(inner) => assert_eq!(inner.to_string(), "wrapped"),
        _ => panic!("expected Custom"),
    }
}

#[test]
fn error_messages() {
    let ty = TypeInfo::from_type::<Service>().named("service");
    let found = TypeInfo::from_type::<Stranger>().named("stranger");
    let keys = format!(". Expected {:?} found {:?}", ty, found);
    let key = format!(" while resolve {:?}", ty);

    assert!(keys.contains("service") && keys.contains("stranger"));
    assert_eq!(ServiceBuildError::ServiceNotFound { ty }.message(), "Service not found");
    assert_eq!(ServiceBuildError::ScopeNotFound { ty }.message(), "Scope not found");
    assert_eq!(ServiceBuildError::MappingNotFound { ty }.message(), "Mapping not found");
    assert_eq!(
        ServiceBuildError::InvalidMappingLayerBoxedInputType { expected: ty, found }.message(),
        format!("Invalid mapping layer boxed input type{}", keys)
    );
    assert_eq!(
        ServiceBuildError::InvalidMappingLayerBoxedOutputType { expected: ty, found }.message(),
        format!("Invalid mapping layer boxed output type{}", keys)
    );
    assert_eq!(
        ServiceBuildError::InvalidScopeLayerBoxedInputType { expected: ty, found }.message(),
        format!("Invalid scope layer boxed input type{}", keys)
    );
    assert_eq!(
        ServiceBuildError::UnexpectedSingletoneSplitterParams { expected: ty, found }.message(),
        format!("Unexpected singletone splitter params{}", keys)
    );
    assert_eq!(
        ServiceBuildError::InvalidScopeLayerBoxedOutputType { expected: ty, found }.message(),
        format!("Invalid scope layer boxed output type{}", keys)
    );
    assert_eq!(
        ServiceBuildError::TaskLocalContextNotInitialized { ty }.message(),
        format!("Task local context not initialized{}", key)
    );
    assert_eq!(
        ServiceBuildError::ThreadLocalContextNotInitialized { ty }.message(),
        format!("Thread local context not initialized{}", key)
    );
    assert_eq!(
        ServiceBuildError::Custom(anyhow::Error::msg("from the constructor")).message(),
        "from the constructor"
    );
}

#[test]
fn default_builder_has_no_registrations() {
    let sp = DiBuilder::default().build();

    assert!(matches!(
        sp.resolve::<Service>(),
        Err(ServiceBuildError::MappingNotFound { .. })
    ));
}
