use chat_hub::backend::{Backend, BackendFeed};
use chat_hub::chat_backend::{BackendEvent, ChatBackend, FeedBatch};
use chat_hub::dummy_backend::{DummyBackend, DummyFeed, FEED_PAUSE_MILLIS};

fn message(event: &BackendEvent) -> (String, u64, String, String) {
    match event {
        BackendEvent::Message { channel_id, message_id, body, author } => {
            (channel_id.clone(), *message_id, body.clone(), author.clone())
        }
        BackendEvent::ChannelList { .. } => panic!("expected a message"),
    }
}

fn messages(batch: &FeedBatch) -> Vec<(String, u64, String, String)> {
    batch.events.iter().map(message).collect()
}

fn channels(event: &BackendEvent) -> Vec<(String, String)> {
    match event {
        BackendEvent::ChannelList { channels } => {
            channels.iter().map(|c| (c.id.clone(), c.name.clone())).collect()
        }
        BackendEvent::Message { .. } => panic!("expected a channel list"),
    }
}

fn owned(channel_id: &str, id: u64, body: &str, author: &str) -> (String, u64, String, String) {
    (channel_id.to_string(), id, body.to_string(), author.to_string())
}

#[test]
fn login_always_gives_the_same_token() {
    let backend = DummyBackend::new();
    assert_eq!(backend.login("alice", "secret").unwrap(), "dummy_session_token");
    assert_eq!(backend.login("", "").unwrap(), "dummy_session_token");
}

#[test]
fn list_channels_gives_the_two_channels() {
    let backend = DummyBackend::new();
    assert_eq!(
        channels(&backend.list_channels()),
        vec![
            ("dummy_channel1".to_string(), "Dummy Channel1".to_string()),
            ("dummy_channel2".to_string(), "Dummy Channel2".to_string()),
        ]
    );
}

#[test]
fn list_channels_is_the_same_on_every_call() {
    let mut backend = DummyBackend::new();
    let first = channels(&backend.list_channels());
    backend.post_message("dummy_channel1", "hello").unwrap();
    let second = channels(&backend.list_channels());
    let mut feed = backend.get_messages();
    backend.next_events(&mut feed).unwrap();
    let third = channels(&backend.list_channels());
    assert_eq!(first, second);
    assert_eq!(second, third);
}

#[test]
fn post_message_queues_the_message() {
    let mut backend = DummyBackend::new();
    assert!(backend.posted_messages().is_empty());
    assert!(backend.post_message("c1", "hi").is_ok());
    assert_eq!(backend.posted_messages().len(), 1);
    assert_eq!(message(&backend.posted_messages()[0]), owned("c1", 0, "hi", "Good old me"));
}

#[test]
fn a_turn_without_posts_is_the_two_made_up_messages() {
    let mut backend = DummyBackend::new();
    let mut feed = backend.get_messages();
    assert_eq!(feed.next_message_id, 1);

    let batch = backend.next_events(&mut feed).expect("the feed is live");

    assert_eq!(
        messages(&batch),
        vec![
            owned("dummy_channel1", 1, "Random message: 1", "Dummy Author"),
            owned("dummy_channel2", 2, "Random message: 2", "Another Dummy Author"),
        ]
    );
    assert_eq!(batch.pause_millis, 500);
    assert_eq!(FEED_PAUSE_MILLIS, 500);
    assert_eq!(feed.next_message_id, 3);
}

#[test]
fn a_turn_hands_out_the_posts_first_and_in_order() {
    let mut backend = DummyBackend::new();
    let mut feed = backend.get_messages();
    backend.post_message("a", "first").unwrap();
    backend.post_message("b", "second").unwrap();
    backend.post_message("a", "third").unwrap();

    let batch = backend.next_events(&mut feed).expect("the feed is live");

    assert_eq!(
        messages(&batch),
        vec![
            owned("a", 0, "first", "Good old me"),
            owned("b", 0, "second", "Good old me"),
            owned("a", 0, "third", "Good old me"),
            owned("dummy_channel1", 1, "Random message: 1", "Dummy Author"),
            owned("dummy_channel2", 2, "Random message: 2", "Another Dummy Author"),
        ]
    );
    assert!(backend.posted_messages().is_empty());
}

#[test]
fn a_post_is_handed_out_once() {
    let mut backend = DummyBackend::new();
    let mut feed = backend.get_messages();
    backend.post_message("a", "only once").unwrap();
    assert_eq!(backend.next_events(&mut feed).unwrap().events.len(), 3);

    let batch = backend.next_events(&mut feed).expect("the feed is live");

    assert_eq!(
        messages(&batch),
        vec![
            owned("dummy_channel1", 3, "Random message: 3", "Dummy Author"),
            owned("dummy_channel2", 4, "Random message: 4", "Another Dummy Author"),
        ]
    );
}

#[test]
fn identifiers_grow_from_turn_to_turn() {
    let mut backend = DummyBackend::new();
    let mut feed = backend.get_messages();
    let mut last = 0;
    for _ in 0..20 {
        let batch = backend.next_events(&mut feed).expect("the feed is live");
        for (_, id, body, _) in messages(&batch) {
            assert!(id > last);
            assert_eq!(body, format!("Random message: {}", id));
            last = id;
        }
    }
    assert_eq!(last, 40);
    assert_eq!(feed.next_message_id, 41);
}

#[test]
fn each_feed_counts_for_itself_but_shares_the_posts() {
    let mut backend = DummyBackend::new();
    let mut one = backend.get_messages();
    let mut two = backend.get_messages();
    backend.post_message("a", "for whoever comes first").unwrap();

    assert_eq!(backend.next_events(&mut one).unwrap().events.len(), 3);
    let batch = backend.next_events(&mut two).unwrap();

    assert_eq!(messages(&batch).iter().map(|m| m.1).collect::<Vec<u64>>(), vec![1, 2]);
    assert_eq!(one.next_message_id, 3);
    assert_eq!(two.next_message_id, 3);
}

#[test]
fn a_feed_ends_when_its_identifiers_run_out() {
    let mut backend = DummyBackend::new();
    backend.post_message("a", "kept").unwrap();

    let mut feed = DummyFeed { next_message_id: u64::MAX - 1 };
    assert!(backend.next_events(&mut feed).is_none());
    assert_eq!(feed.next_message_id, u64::MAX - 1);
    assert_eq!(backend.posted_messages().len(), 1);

    let mut feed = DummyFeed { next_message_id: u64::MAX - 2 };
    let batch = backend.next_events(&mut feed).expect("two identifiers are left");
    assert_eq!(
        messages(&batch),
        vec![
            owned("a", 0, "kept", "Good old me"),
            owned(
                "dummy_channel1",
                18446744073709551613,
                "Random message: 18446744073709551613",
                "Dummy Author"
            ),
            owned(
                "dummy_channel2",
                18446744073709551614,
                "Random message: 18446744073709551614",
                "Another Dummy Author"
            ),
        ]
    );
    assert_eq!(feed.next_message_id, u64::MAX);
    assert!(backend.next_events(&mut feed).is_none());
}

#[test]
fn backend_of_kind_dummy_behaves_as_the_dummy_backend() {
    let mut backend = Backend::from_kind("dummy").expect("dummy is known");
    assert_eq!(backend.login("u", "p").unwrap(), "dummy_session_token");
    assert_eq!(channels(&backend.list_channels()).len(), 2);
    let mut feed = backend.get_messages();
    assert!(matches!(feed, BackendFeed::Dummy(DummyFeed { next_message_id: 1 })));
    assert!(backend.post_message("c", "b").is_ok());

    let batch = backend.next_events(&mut feed).expect("the feed is live");

    assert_eq!(
        messages(&batch),
        vec![
            owned("c", 0, "b", "Good old me"),
            owned("dummy_channel1", 1, "Random message: 1", "Dummy Author"),
            owned("dummy_channel2", 2, "Random message: 2", "Another Dummy Author"),
        ]
    );
    assert!(matches!(feed, BackendFeed::Dummy(DummyFeed { next_message_id: 3 })));
    let Backend::Dummy(dummy) = &backend;
    assert!(dummy.posted_messages().is_empty());
}
