//! The synthetic backend: it keeps what is posted to it until a feed takes it,
//! and makes up two messages of its own in every turn of a feed.

use crate::chat_backend::{
    event_views, BackendEvent, Channel, ChannelView, ChatBackend, EventView, FeedBatch,
    LoginError, PostError,
};
use crate::text::{decimal, u64_to_decimal};
use vstd::prelude::*;

verus! {

/// How long a feed of the synthetic backend rests after each turn.
pub const FEED_PAUSE_MILLIS: u64 = 500;

/// The two channels of the synthetic backend.
pub open spec fn dummy_channels() -> Seq<ChannelView> {
    seq![
        ChannelView { id: "dummy_channel1"@, name: "Dummy Channel1"@ },
        ChannelView { id: "dummy_channel2"@, name: "Dummy Channel2"@ },
    ]
}

/// The body of the made-up message with identifier `id`.
pub open spec fn synthetic_body(id: u64) -> Seq<char> {
    "Random message: "@ + decimal(id as nat)
}

/// The two messages that a feed makes up in the turn that starts at
/// identifier `id`: one in each channel, with identifiers `id` and `id + 1`.
pub open spec fn synthetic_pair(id: u64) -> Seq<EventView>
    recommends
        id < u64::MAX,
{
    seq![
        EventView::Message {
            channel_id: "dummy_channel1"@,
            message_id: id,
            body: synthetic_body(id),
            author: "Dummy Author"@,
        },
        EventView::Message {
            channel_id: "dummy_channel2"@,
            message_id: (id + 1) as u64,
            body: synthetic_body((id + 1) as u64),
            author: "Another Dummy Author"@,
        },
    ]
}

/// The synthetic backend.
#[derive(Debug)]
pub struct DummyBackend {
    posted_messages: Vec<BackendEvent>,
}

/// The place of one listener in the synthetic backend's stream: the
/// identifier of the next message that the feed makes up.
#[derive(Debug)]
pub struct DummyFeed {
    pub next_message_id: u64,
}

impl DummyFeed {
    /// Whether the feed has two more identifiers to give out, and a next one
    /// to go on from.
    pub open spec fn live(&self) -> bool {
        self.next_message_id <= u64::MAX - 2
    }
}

fn synthetic_message(id: u64, channel_id: &str, author: &str) -> (event: BackendEvent)
    ensures
        event@ == (EventView::Message {
            channel_id: channel_id@,
            message_id: id,
            body: synthetic_body(id),
            author: author@,
        }),
{
    let mut body = "Random message: ".to_owned();
    let digits = u64_to_decimal(id);
    body.append(digits.as_str());
    BackendEvent::Message {
        message_id: id,
        channel_id: channel_id.to_owned(),
        author: author.to_owned(),
        body,
    }
}

impl View for DummyBackend {
    type V = Seq<EventView>;

    /// A synthetic backend is the queue of what was posted to it and not yet
    /// taken by a feed, oldest first.
    closed spec fn view(&self) -> Seq<EventView> {
        event_views(self.posted_messages@)
    }
}

impl DummyBackend {
    /// A backend to which nothing has been posted.
    pub fn new() -> (backend: Self)
        ensures
            backend@ == Seq::<EventView>::empty(),
    {
        DummyBackend { posted_messages: Vec::new() }
    }

    /// The posted events that no feed has taken yet, oldest first.
    pub fn posted_messages(&self) -> (events: &Vec<BackendEvent>)
        ensures
            event_views(events@) == self@,
    {
        &self.posted_messages
    }
}

impl ChatBackend for DummyBackend {
    type Feed = DummyFeed;

    open spec fn channel_set(&self) -> Seq<ChannelView> {
        dummy_channels()
    }

    open spec fn pending(&self) -> Seq<EventView> {
        self@
    }

    open spec fn posted_event(&self, channel_id: Seq<char>, content: Seq<char>) -> EventView {
        EventView::Message {
            channel_id: channel_id,
            message_id: 0,
            body: content,
            author: "Good old me"@,
        }
    }

    /// Every login succeeds, with the same token.
    fn login(&self, username: &str, password: &str) -> (r: Result<String, LoginError>)
        ensures
            r matches Ok(token) && token@ == "dummy_session_token"@,
    {
        Ok("dummy_session_token".to_owned())
    }

    fn list_channels(&self) -> (event: BackendEvent) {
        let mut channels: Vec<Channel> = Vec::new();
        channels.push(
            Channel { id: "dummy_channel1".to_owned(), name: "Dummy Channel1".to_owned() },
        );
        channels.push(
            Channel { id: "dummy_channel2".to_owned(), name: "Dummy Channel2".to_owned() },
        );
        let event = BackendEvent::ChannelList { channels };
        assert(event@->channels =~= dummy_channels());
        event
    }

    /// A feed that starts at identifier 1.
    fn get_messages(&self) -> (feed: DummyFeed)
        ensures
            feed.next_message_id == 1,
    {
        DummyFeed { next_message_id: 1 }
    }

    /// Posting to the synthetic backend never fails.
    fn post_message(&mut self, channel_id: &str, content: &str) -> (r: Result<(), PostError>)
        ensures
            r is Ok,
    {
        let message = BackendEvent::Message {
            message_id: 0u64,
            channel_id: channel_id.to_owned(),
            author: "Good old me".to_owned(),
            body: content.to_owned(),
        };
        self.posted_messages.push(message);
        Ok(())
    }

    /// The turn is exactly the pending events, oldest first, followed by the
    /// two made-up messages; nothing is pending afterwards. The feed ends
    /// when its identifiers run out.
    fn next_events(&mut self, feed: &mut DummyFeed) -> (batch: Option<FeedBatch>)
        ensures
            batch is Some <==> old(feed).live(),
            batch matches Some(b) ==> {
                &&& event_views(b.events@) == old(self)@ + synthetic_pair(
                    old(feed).next_message_id,
                )
                &&& b.pause_millis == FEED_PAUSE_MILLIS
                &&& final(feed).next_message_id == old(feed).next_message_id + 2
                &&& final(self)@ == Seq::<EventView>::empty()
            },
            batch is None ==> *final(feed) == *old(feed) && final(self)@ == old(self)@,
    {
        if feed.next_message_id > u64::MAX - 2 {
            return None;
        }
        let id = feed.next_message_id;
        let mut events: Vec<BackendEvent> = Vec::new();
        std::mem::swap(&mut events, &mut self.posted_messages);
        events.push(synthetic_message(id, "dummy_channel1", "Dummy Author"));
        events.push(synthetic_message(id + 1, "dummy_channel2", "Another Dummy Author"));
        feed.next_message_id = id + 2;
        assert(event_views(events@).subrange(0, old(self).pending().len() as int)
            =~= old(self).pending());
        Some(FeedBatch { events, pause_millis: FEED_PAUSE_MILLIS })
    }
}

} // verus!
