use chat_hub::backend::{Backend, BackendFeed};
use chat_hub::chat_backend::{BackendEvent, ChatBackend};
use chat_hub::dummy_backend::{DummyBackend, DummyFeed};
use chat_hub::registry::Registry;

fn pending(registry: &Registry, service: &str) -> usize {
    let Backend::Dummy(dummy) = registry.lookup(service).expect("registered");
    dummy.posted_messages().len()
}

#[test]
fn a_new_registry_is_empty() {
    let registry = Registry::new();
    assert_eq!(registry.len(), 0);
    assert!(registry.service_names().is_empty());
    assert!(!registry.contains("svc1"));
    assert!(registry.lookup("svc1").is_none());
    assert!(registry.list_channels("svc1").is_none());
    assert!(registry.get_messages("svc1").is_none());
}

#[test]
fn insert_registers_and_replaces() {
    let mut registry = Registry::new();
    assert!(registry.insert("svc1".to_string(), Backend::Dummy(DummyBackend::new())).is_none());
    assert!(registry.insert("svc2".to_string(), Backend::Dummy(DummyBackend::new())).is_none());
    assert_eq!(registry.len(), 2);
    assert_eq!(registry.service_names(), vec!["svc1".to_string(), "svc2".to_string()]);

    registry.post_message("svc1", "c", "old");
    assert_eq!(pending(&registry, "svc1"), 1);

    let mut replacement = DummyBackend::new();
    replacement.post_message("c", "new one").unwrap();
    replacement.post_message("c", "new two").unwrap();
    let previous = registry.insert("svc1".to_string(), Backend::Dummy(replacement));

    let Some(Backend::Dummy(previous)) = previous else { panic!("svc1 was registered") };
    assert_eq!(previous.posted_messages().len(), 1);
    assert_eq!(registry.len(), 2);
    assert_eq!(pending(&registry, "svc1"), 2);
    assert_eq!(pending(&registry, "svc2"), 0);
}

#[test]
fn names_are_compared_exactly() {
    let mut registry = Registry::new();
    registry.insert("svc".to_string(), Backend::Dummy(DummyBackend::new()));
    assert!(registry.contains("svc"));
    assert!(!registry.contains("SVC"));
    assert!(!registry.contains("svc "));
    assert!(!registry.contains(""));
    registry.insert(String::new(), Backend::Dummy(DummyBackend::new()));
    assert!(registry.contains(""));
    assert_eq!(registry.len(), 2);
}

#[test]
fn post_message_is_one_call_on_the_named_backend() {
    let mut registry = Registry::new();
    registry.insert("a".to_string(), Backend::Dummy(DummyBackend::new()));
    registry.insert("b".to_string(), Backend::Dummy(DummyBackend::new()));

    assert!(matches!(registry.post_message("b", "c1", "hi"), Some(Ok(()))));
    assert_eq!(pending(&registry, "a"), 0);
    assert_eq!(pending(&registry, "b"), 1);

    assert!(registry.post_message("c", "c1", "hi").is_none());
    assert_eq!(pending(&registry, "a"), 0);
    assert_eq!(pending(&registry, "b"), 1);
    assert_eq!(registry.len(), 2);
}

#[test]
fn list_channels_and_feeds_go_by_name() {
    let mut registry = Registry::new();
    registry.insert("a".to_string(), Backend::Dummy(DummyBackend::new()));
    match registry.list_channels("a").expect("registered") {
        BackendEvent::ChannelList { channels } => assert_eq!(channels.len(), 2),
        other => panic!("unexpected event {:?}", other),
    }
    assert!(matches!(
        registry.get_messages("a"),
        Some(BackendFeed::Dummy(DummyFeed { next_message_id: 1 }))
    ));
}

#[test]
fn next_events_drains_only_the_named_backend() {
    let mut registry = Registry::new();
    registry.insert("a".to_string(), Backend::Dummy(DummyBackend::new()));
    registry.insert("b".to_string(), Backend::Dummy(DummyBackend::new()));
    registry.post_message("a", "c", "for a");
    registry.post_message("b", "c", "for b");
    let mut feed = registry.get_messages("a").expect("registered");

    let batch = registry.next_events("a", &mut feed).expect("the feed is live");

    assert_eq!(batch.events.len(), 3);
    assert_eq!(pending(&registry, "a"), 0);
    assert_eq!(pending(&registry, "b"), 1);

    let mut feed = BackendFeed::Dummy(DummyFeed { next_message_id: 9 });
    assert!(registry.next_events("missing", &mut feed).is_none());
    assert!(matches!(feed, BackendFeed::Dummy(DummyFeed { next_message_id: 9 })));
}
