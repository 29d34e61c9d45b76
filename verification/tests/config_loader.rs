use chat_hub::backend::Backend;
use chat_hub::chat_backend::{BackendEvent, ChatBackend};
use chat_hub::config_loader::{
    find_unsupported_backend, load_config_and_instantiate_backend, ServiceConfig,
};
use chat_hub::registry::Registry;

fn load(services: &Vec<(String, ServiceConfig)>) -> Registry {
    assert!(find_unsupported_backend(services).is_none(), "every backend is known");
    load_config_and_instantiate_backend(services)
}

fn text_of(table: &toml::Table, key: &str) -> Option<String> {
    table.get(key).and_then(|value| value.as_str()).map(str::to_string)
}

fn services_of(config: &str) -> Vec<(String, ServiceConfig)> {
    let document: toml::Table = toml::from_str(config).expect("Failed to parse configuration");
    let mut services = Vec::new();
    for (name, value) in document.iter() {
        let table = value.as_table().expect("each service is a table");
        services.push((
            name.clone(),
            ServiceConfig {
                backend: text_of(table, "backend").expect("each service names its backend"),
                server_url: text_of(table, "server_url"),
                username: text_of(table, "username"),
                password: text_of(table, "password"),
            },
        ));
    }
    services
}

fn service(name: &str, backend: &str) -> (String, ServiceConfig) {
    (
        name.to_string(),
        ServiceConfig {
            backend: backend.to_string(),
            server_url: None,
            username: None,
            password: None,
        },
    )
}

#[test]
fn test_load_config_and_instantiate_backend() {
    let config_content = r#"
[some_dummy_service]
backend = "dummy"
        "#;

    let backends = load(&services_of(config_content));
    assert!(
        backends.contains("some_dummy_service"),
        "Expected service 'some_dummy_service' to be loaded"
    );

    let backend = backends.lookup("some_dummy_service").unwrap();
    let event = backend.list_channels();
    match event {
        BackendEvent::ChannelList { ref channels } => {
            assert!(
                !channels.is_empty(),
                "Dummy backend should return at least one channel in the ChannelList event"
            );
        }
        _ => panic!("Expected a ChannelList event from the dummy backend"),
    }
}

#[test]
fn every_configured_service_gets_its_own_new_backend() {
    let services = vec![service("a", "dummy"), service("b", "dummy"), service("c", "dummy")];
    let registry = load(&services);
    assert_eq!(registry.len(), 3);
    let mut names = registry.service_names();
    names.sort();
    assert_eq!(names, vec!["a".to_string(), "b".to_string(), "c".to_string()]);
    for name in ["a", "b", "c"] {
        let Backend::Dummy(dummy) = registry.lookup(name).expect("registered");
        assert!(dummy.posted_messages().is_empty());
    }
}

#[test]
fn no_services_give_an_empty_registry() {
    let registry = load(&Vec::new());
    assert_eq!(registry.len(), 0);
    assert!(!registry.contains(""));
}

#[test]
fn a_name_that_occurs_twice_is_registered_once() {
    let services = vec![service("a", "dummy"), service("a", "dummy")];
    let registry = load(&services);
    assert_eq!(registry.len(), 1);
    assert!(registry.contains("a"));
}

#[test]
fn the_first_unknown_backend_is_refused_by_name() {
    let services = vec![
        service("good", "dummy"),
        service("chat", "rocketchat"),
        service("other", "irc"),
    ];
    let refused = find_unsupported_backend(&services).expect("rocketchat is unknown");
    assert_eq!(refused.service, "chat");
    assert_eq!(refused.backend, "rocketchat");
    assert_eq!(refused.to_string(), "Unsupported backend: rocketchat");
}

#[test]
fn known_services_are_not_refused() {
    assert!(find_unsupported_backend(&Vec::new()).is_none());
    assert!(find_unsupported_backend(&vec![service("a", "dummy"), service("b", "dummy")]).is_none());
    let refused = find_unsupported_backend(&vec![service("a", ""), service("b", "dummy")])
        .expect("the empty word names no backend");
    assert_eq!(refused.service, "a");
    assert_eq!(refused.backend, "");
    assert_eq!(refused.to_string(), "Unsupported backend: ");
}

#[test]
fn backend_words_are_matched_exactly() {
    assert!(Backend::knows_kind("dummy"));
    assert!(!Backend::knows_kind("Dummy"));
    assert!(!Backend::knows_kind("rocketchat"));
    assert!(Backend::from_kind("dummy").is_some());
    assert!(Backend::from_kind("Dummy").is_none());
    assert!(Backend::from_kind("dummy ").is_none());
    assert!(Backend::from_kind("").is_none());
}

#[test]
fn parameters_of_other_backends_are_carried_along() {
    let config = r#"
[chat]
backend = "rocketchat"
server_url = "ws://chat.example.com/websocket"
username = "my_username"
password = "my_password"
"#;
    let services = services_of(config);
    assert_eq!(services.len(), 1);
    assert_eq!(services[0].1.server_url.as_deref(), Some("ws://chat.example.com/websocket"));
    let refused = find_unsupported_backend(&services).expect("unknown kind");
    assert_eq!(refused.service, "chat");
}
