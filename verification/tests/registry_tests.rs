use up_transport_iceoryx2_rust::keyed::KeyedList;
use up_transport_iceoryx2_rust::registry::PubSubRegistry;
use up_transport_iceoryx2_rust::worker::WorkerRegistry;

fn name(s: &str) -> Vec<u8> {
    s.as_bytes().to_vec()
}

fn ids<L>(set: &KeyedList<u64, L>) -> Vec<u64> {
    (0..set.len()).map(|i| *set.entry_at(i).0).collect()
}

#[test]
fn keyed_list_keeps_insertion_order() {
    let mut list: KeyedList<u64, &str> = KeyedList::new();
    assert!(list.is_empty());
    assert_eq!(list.insert(3, "c"), None);
    assert_eq!(list.insert(1, "a"), None);
    assert_eq!(list.insert(2, "b"), None);
    assert_eq!(ids(&list), vec![3, 1, 2]);
    assert_eq!(list.insert(1, "A"), Some("a"));
    assert_eq!(ids(&list), vec![3, 1, 2]);
    assert_eq!(list.get(&1), Some(&"A"));
    assert_eq!(list.remove(&3), Some("c"));
    assert_eq!(list.remove(&3), None);
    assert_eq!(ids(&list), vec![1, 2]);
    assert!(!list.contains_key(&3));
    assert_eq!(list.len(), 2);
}

#[test]
fn keyed_list_with_byte_keys() {
    let mut list: KeyedList<Vec<u8>, u32> = KeyedList::new();
    list.insert(name("alpha"), 1);
    list.insert(name("beta"), 2);
    assert_eq!(list.get(&name("alpha")), Some(&1));
    assert_eq!(list.get(&name("alph")), None);
    assert!(list.contains_key(&name("beta")));
}

#[test]
fn publisher_is_created_once_and_found_again() {
    let mut reg: PubSubRegistry<u32, u32, &str> = PubSubRegistry::new();
    assert_eq!(reg.publisher_table().get(&name("svc")), None);
    reg.add_publisher(name("svc"), 11);
    assert_eq!(reg.publisher_table().get(&name("svc")), Some(&11));
    assert_eq!(reg.publisher_table().get(&name("other")), None);
}

#[test]
fn pubsub_register_creates_subscriber_and_set() {
    let mut reg: PubSubRegistry<u32, u32, &str> = PubSubRegistry::new();
    assert!(!reg.service_table().has_subscriber(&name("svc")));
    reg.register_listener(name("svc"), Some(5), 100, "first");
    assert!(reg.service_table().has_subscriber(&name("svc")));
    assert_eq!(reg.service_table().subscriber_count(), 1);
    assert_eq!(reg.service_table().subscriber_at(0), (&name("svc"), &5));
    let set = reg.service_table().listeners_for(&name("svc")).unwrap();
    assert_eq!(ids(set), vec![100]);
}

#[test]
fn pubsub_second_listener_joins_the_set() {
    let mut reg: PubSubRegistry<u32, u32, &str> = PubSubRegistry::new();
    reg.register_listener(name("svc"), Some(5), 100, "first");
    reg.register_listener(name("svc"), None, 200, "second");
    reg.register_listener(name("svc"), None, 100, "again");
    let set = reg.service_table().listeners_for(&name("svc")).unwrap();
    assert_eq!(ids(set), vec![100, 200]);
    assert_eq!(set.get(&100), Some(&"first"));
    assert_eq!(reg.service_table().subscriber_count(), 1);
    assert_eq!(reg.service_table().subscriber_at(0), (&name("svc"), &5));
}

#[test]
fn pubsub_unregister_last_listener_drops_subscriber_keeps_empty_set() {
    let mut reg: PubSubRegistry<u32, u32, &str> = PubSubRegistry::new();
    reg.register_listener(name("svc"), Some(5), 100, "first");
    assert_eq!(reg.unregister_listener(&name("svc"), 100), Some(5));
    assert!(!reg.service_table().has_subscriber(&name("svc")));
    let set = reg.service_table().listeners_for(&name("svc")).unwrap();
    assert!(set.is_empty());
    // a later registration creates a subscriber again and joins the empty set
    reg.register_listener(name("svc"), Some(6), 300, "third");
    assert!(reg.service_table().has_subscriber(&name("svc")));
    assert_eq!(reg.service_table().subscriber_at(0), (&name("svc"), &6));
    assert_eq!(ids(reg.service_table().listeners_for(&name("svc")).unwrap()), vec![300]);
}

#[test]
fn pubsub_register_again_after_unregister() {
    let mut reg: PubSubRegistry<u32, u32, &str> = PubSubRegistry::new();
    reg.register_listener(name("svc"), Some(5), 100, "first");
    assert_eq!(reg.unregister_listener(&name("svc"), 100), Some(5));
    reg.register_listener(name("svc"), Some(7), 100, "first");
    assert_eq!(ids(reg.service_table().listeners_for(&name("svc")).unwrap()), vec![100]);
    assert!(reg.service_table().has_subscriber(&name("svc")));
}

#[test]
fn pubsub_publishers_are_counted() {
    let mut reg: PubSubRegistry<u32, u32, &str> = PubSubRegistry::new();
    assert_eq!(reg.publisher_table().len(), 0);
    reg.add_publisher(name("a"), 1);
    reg.add_publisher(name("b"), 2);
    assert_eq!(reg.publisher_table().len(), 2);
    assert_eq!(reg.publisher_table().get(&name("a")), Some(&1));
    assert_eq!(reg.publisher_table().get(&name("b")), Some(&2));
}

#[test]
fn pubsub_unregister_unknown_changes_nothing() {
    let mut reg: PubSubRegistry<u32, u32, &str> = PubSubRegistry::new();
    reg.register_listener(name("svc"), Some(5), 100, "first");
    assert_eq!(reg.unregister_listener(&name("other"), 100), None);
    assert_eq!(reg.unregister_listener(&name("svc"), 999), None);
    assert!(reg.service_table().has_subscriber(&name("svc")));
    assert_eq!(ids(reg.service_table().listeners_for(&name("svc")).unwrap()), vec![100]);
}

#[test]
fn worker_register_adds_every_listener() {
    let mut reg: WorkerRegistry<u32, u32, &str> = WorkerRegistry::new();
    reg.register_listener(name("svc"), Some(5), 100, "first");
    reg.register_listener(name("svc"), None, 200, "second");
    reg.register_listener(name("svc"), None, 100, "again");
    let set = reg.service_table().listeners_for(&name("svc")).unwrap();
    assert_eq!(ids(set), vec![100, 200]);
    assert_eq!(set.get(&100), Some(&"first"));
}

#[test]
fn worker_unregister_undoes_register() {
    let mut reg: WorkerRegistry<u32, u32, &str> = WorkerRegistry::new();
    reg.register_listener(name("svc"), Some(5), 100, "first");
    reg.register_listener(name("svc"), None, 200, "second");
    assert_eq!(reg.unregister_listener(&name("svc"), 100), None);
    assert!(reg.service_table().has_subscriber(&name("svc")));
    assert_eq!(reg.unregister_listener(&name("svc"), 200), Some(5));
    assert!(!reg.service_table().has_subscriber(&name("svc")));
    assert!(reg.service_table().listeners_for(&name("svc")).is_none());
    assert_eq!(reg.service_table().subscriber_count(), 0);
}

#[test]
fn worker_publishers_are_cached() {
    let mut reg: WorkerRegistry<u32, u32, &str> = WorkerRegistry::new();
    assert_eq!(reg.publisher_table().len(), 0);
    reg.add_publisher(name("svc"), 1);
    assert_eq!(reg.publisher_table().get(&name("svc")), Some(&1));
    assert_eq!(reg.publisher_table().len(), 1);
    assert_eq!(reg.publisher_table().get(&name("other")), None);
}

#[test]
fn subscribers_are_relayed_in_registration_order() {
    let mut reg: WorkerRegistry<u32, u32, &str> = WorkerRegistry::new();
    reg.register_listener(name("b"), Some(2), 1, "x");
    reg.register_listener(name("a"), Some(1), 2, "y");
    assert_eq!(reg.service_table().subscriber_count(), 2);
    assert_eq!(reg.service_table().subscriber_at(0).0, &name("b"));
    assert_eq!(reg.service_table().subscriber_at(1).0, &name("a"));
}

#[test]
fn pubsub_get_or_create_publisher_creates_once() {
    let mut reg: PubSubRegistry<u32, u32, &str> = PubSubRegistry::new();
    assert_eq!(reg.get_or_create_publisher(name("svc"), || Ok::<u32, String>(11)), Ok(&11));
    assert_eq!(reg.publisher_table().len(), 1);
    let second = reg.get_or_create_publisher(name("svc"), || -> Result<u32, String> {
        panic!("a recorded publisher is not created again")
    });
    assert_eq!(second, Ok(&11));
    assert_eq!(reg.publisher_table().len(), 1);
}

#[test]
fn pubsub_failed_publisher_creation_records_nothing() {
    let mut reg: PubSubRegistry<u32, u32, &str> = PubSubRegistry::new();
    let res = reg.get_or_create_publisher(name("svc"), || Err::<u32, String>("no service".to_string()));
    assert_eq!(res, Err("no service".to_string()));
    assert_eq!(reg.publisher_table().len(), 0);
    assert_eq!(reg.publisher_table().get(&name("svc")), None);
}

#[test]
fn worker_get_or_create_publisher_reuses_the_recorded_one() {
    let mut reg: WorkerRegistry<u32, u32, &str> = WorkerRegistry::new();
    reg.add_publisher(name("svc"), 3);
    assert_eq!(reg.get_or_create_publisher(name("svc"), || Ok::<u32, String>(4)), Ok(&3));
    assert_eq!(reg.get_or_create_publisher(name("new"), || Ok::<u32, String>(5)), Ok(&5));
    assert_eq!(reg.publisher_table().len(), 2);
}
