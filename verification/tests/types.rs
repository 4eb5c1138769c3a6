use std::collections::HashMap;
use std::sync::{Arc, Mutex};

use xdi::types::arc_service::ArcService;
use xdi::types::boxed_service::BoxedService;
use xdi::types::boxed_service_sync::SyncBoxedService;
use xdi::types::type_info::{TypeInfo, TypeInfoSource};
use xdi::types::type_map::TypeMap;

#[derive(Debug, Clone, PartialEq)]
struct Payload {
    text: String,
    number: u32,
}

struct Other;

trait Capability {}

#[test]
fn type_info_is_equal_for_one_type_and_unequal_for_two() {
    assert!(TypeInfo::from_type::<Payload>() == TypeInfo::from_type::<Payload>());
    assert!(Payload::type_info() == TypeInfo::from_type::<Payload>());
    assert!(TypeInfo::from_type::<Payload>() != TypeInfo::from_type::<Other>());
    assert!(TypeInfo::from_type::<u32>() != TypeInfo::from_type::<u64>());
}

#[test]
fn type_info_tells_a_wrapped_form_from_the_plain_type() {
    assert!(TypeInfo::from_type::<Payload>() != TypeInfo::from_type::<Box<Payload>>());
    assert!(TypeInfo::from_type::<Payload>() != TypeInfo::from_type::<Arc<Payload>>());
    assert!(TypeInfo::from_type::<dyn Capability>() != TypeInfo::from_type::<Box<dyn Capability>>());
    assert!(TypeInfo::from_type::<dyn Capability>() == TypeInfo::from_type::<dyn Capability>());
}

#[test]
fn type_info_name_takes_no_part_in_equality_or_hashing() {
    let plain = TypeInfo::from_type::<Payload>();
    let named = plain.named("payload");

    assert_eq!(plain.name, "");
    assert_eq!(named.name, "payload");
    assert!(plain == named);

    let mut map = HashMap::new();
    map.insert(plain, 1);
    map.insert(named, 2);
    map.insert(TypeInfo::from_type::<Other>().named("payload"), 3);

    assert_eq!(map.len(), 2);
    assert_eq!(map[&plain], 2);
}

#[test]
fn boxed_service_round_trip_gives_the_value_back() {
    let value = Payload { text: "abc".to_string(), number: 7 };

    let boxed = BoxedService::new(value.clone());

    assert!(boxed.ty() == TypeInfo::from_type::<Payload>());
    assert_eq!(boxed.unbox::<Payload>().ok().unwrap(), value);
}

#[test]
fn boxed_service_unboxed_as_another_type_comes_back_untouched() {
    let value = Payload { text: "abc".to_string(), number: 7 };

    let boxed = BoxedService::new(value.clone());

    let back = match boxed.unbox::<Other>() {
        Ok(_) => panic!("a Payload is no Other"),
        Err(back) => back,
    };

    assert!(back.ty() == TypeInfo::from_type::<Payload>());

    let back = match back.unbox::<Box<Payload>>() {
        Ok(_) => panic!("a Payload is no Box<Payload>"),
        Err(back) => back,
    };

    assert_eq!(back.unbox::<Payload>().ok().unwrap(), value);
}

#[test]
fn boxed_service_holds_a_trait_object() {
    trait Speak {
        fn say(&self) -> String;
    }

    impl Speak for Payload {
        fn say(&self) -> String {
            format!("{}{}", self.text, self.number)
        }
    }

    let boxed = BoxedService::new(Box::new(Payload { text: "n".to_string(), number: 1 }) as Box<dyn Speak>);

    assert!(boxed.ty() == TypeInfo::from_type::<Box<dyn Speak>>());

    let boxed = match boxed.unbox::<Payload>() {
        Ok(_) => panic!("a Box<dyn Speak> is no Payload"),
        Err(back) => back,
    };

    assert_eq!(boxed.unbox::<Box<dyn Speak>>().ok().unwrap().say(), "n1");
}

#[test]
fn sync_boxed_service_round_trip_gives_the_value_back() {
    let value = Payload { text: "sync".to_string(), number: 9 };

    let boxed = SyncBoxedService::new(value.clone());

    assert!(boxed.ty() == TypeInfo::from_type::<Payload>());

    let boxed = match boxed.unbox::<u32>() {
        Ok(_) => panic!("a Payload is no u32"),
        Err(back) => back,
    };

    assert!(boxed.ty() == TypeInfo::from_type::<Payload>());
    assert_eq!(boxed.unbox::<Payload>().ok().unwrap(), value);
}

#[test]
fn arc_service_gives_references_and_clones() {
    let value = Payload { text: "arc".to_string(), number: 3 };

    let service = ArcService::new(value.clone());

    assert!(service.ty() == TypeInfo::from_type::<Payload>());
    assert_eq!(service.unbox_ref::<Payload>(), Some(&value));
    assert!(service.unbox_ref::<u32>().is_none());

    let service = match service.clone_unbox::<u32>() {
        Ok(_) => panic!("a Payload is no u32"),
        Err(back) => back,
    };

    assert_eq!(service.unbox_ref::<Payload>(), Some(&value));
    assert_eq!(service.clone_unbox::<Payload>().ok().unwrap(), value);
}

#[test]
fn arc_service_clones_share_one_value() {
    let service = ArcService::new(Mutex::new(1u32));
    let other = service.clone();

    assert!(other.ty() == service.ty());

    *service.unbox_ref::<Mutex<u32>>().unwrap().lock().unwrap() = 5;

    assert_eq!(*other.unbox_ref::<Mutex<u32>>().unwrap().lock().unwrap(), 5);
}

#[test]
fn type_map_files_entries_under_type_keys() {
    let mut map: TypeMap<&'static str> = TypeMap::new();
    let payload = TypeInfo::from_type::<Payload>();
    let other = TypeInfo::from_type::<Other>();

    assert_eq!(map.get(&payload), None);
    assert!(!map.contains(&payload));

    assert_eq!(map.insert(payload, "payload"), None);

    assert_eq!(map.get(&payload), Some(&"payload"));
    assert!(map.contains(&payload));
    assert_eq!(map.get(&other), None);

    assert_eq!(map.insert(other, "other"), None);
    assert_eq!(map.insert(payload.named("again"), "payload again"), Some("payload"));

    assert_eq!(map.get(&payload), Some(&"payload again"));
    assert_eq!(map.get(&other), Some(&"other"));

    assert_eq!(map.insert(other, "other again"), Some("other"));
    assert_eq!(map.get(&payload), Some(&"payload again"));
    assert_eq!(map.get(&other), Some(&"other again"));
}

#[test]
fn type_info_is_ordered() {
    let mut keys = vec![
        TypeInfo::from_type::<u8>(),
        TypeInfo::from_type::<Payload>(),
        TypeInfo::from_type::<u8>(),
        TypeInfo::from_type::<Other>(),
    ];

    keys.sort();
    keys.dedup();

    assert_eq!(keys.len(), 3);
    assert!(keys[0] < keys[1] && keys[1] < keys[2]);
    assert_eq!(
        TypeInfo::from_type::<Payload>().cmp(&Payload::type_info()),
        std::cmp::Ordering::Equal
    );
}

#[test]
fn boxed_service_gives_a_reference() {
    let boxed = BoxedService::new(Payload { text: "ref".to_string(), number: 2 });

    assert_eq!(boxed.unbox_ref::<Payload>().unwrap().number, 2);
    assert!(boxed.unbox_ref::<Other>().is_none());
    assert_eq!(boxed.unbox::<Payload>().ok().unwrap().text, "ref");

    let boxed = SyncBoxedService::new(Payload { text: "sync ref".to_string(), number: 3 });

    assert_eq!(boxed.unbox_ref::<Payload>().unwrap().number, 3);
    assert!(boxed.unbox_ref::<u32>().is_none());
}
