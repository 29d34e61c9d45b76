//! The capability interface that every chat backend offers, and the data that
//! crosses it: channels, messages, events and the two error types.

use crate::text::{decimal, u64_to_decimal};
use vstd::prelude::*;

verus! {

/// Why a login was refused.
#[derive(Debug)]
pub enum LoginError {
    InvalidCredentials,
    ConnectionError(String),
}

impl LoginError {
    /// The text shown for this error.
    pub open spec fn text(&self) -> Seq<char> {
        match self {
            LoginError::InvalidCredentials => "Invalid credentials provided"@,
            LoginError::ConnectionError(detail) => "Connection error: "@ + detail@,
        }
    }

    /// Renders the error for a log line.
    pub fn to_string(&self) -> (s: String)
        ensures
            s@ == self.text(),
    {
        match self {
            LoginError::InvalidCredentials => "Invalid credentials provided".to_owned(),
            LoginError::ConnectionError(detail) => {
                let mut s = "Connection error: ".to_owned();
                s.append(detail.as_str());
                s
            },
        }
    }
}

/// Why a message could not be posted.
#[derive(Debug)]
pub enum PostError {
    ChannelNotFound,
    PermissionDenied,
    ConnectionError(String),
}

impl PostError {
    /// The text shown for this error.
    pub open spec fn text(&self) -> Seq<char> {
        match self {
            PostError::ChannelNotFound => "Channel not found"@,
            PostError::PermissionDenied => "Permission denied"@,
            PostError::ConnectionError(detail) => "Connection error: "@ + detail@,
        }
    }

    /// Renders the error for a log line.
    pub fn to_string(&self) -> (s: String)
        ensures
            s@ == self.text(),
    {
        match self {
            PostError::ChannelNotFound => "Channel not found".to_owned(),
            PostError::PermissionDenied => "Permission denied".to_owned(),
            PostError::ConnectionError(detail) => {
                let mut s = "Connection error: ".to_owned();
                s.append(detail.as_str());
                s
            },
        }
    }
}

/// A channel of a chat service. Its identity is `id`.
#[derive(Debug)]
pub struct Channel {
    pub id: String,
    pub name: String,
}

/// What a `Channel` holds, as plain sequences of characters.
pub struct ChannelView {
    pub id: Seq<char>,
    pub name: Seq<char>,
}

impl View for Channel {
    type V = ChannelView;

    open spec fn view(&self) -> ChannelView {
        ChannelView { id: self.id@, name: self.name@ }
    }
}

impl Clone for Channel {
    fn clone(&self) -> (c: Self)
        ensures
            c == *self,
    {
        Channel { id: self.id.clone(), name: self.name.clone() }
    }
}

/// The views of a sequence of channels, in the same order.
pub open spec fn channel_views(channels: Seq<Channel>) -> Seq<ChannelView> {
    channels.map_values(|c: Channel| c@)
}

/// A list of channels kept by a backend.
#[derive(Debug)]
pub struct MyBackendState {
    pub channels: Vec<Channel>,
}

/// The three channels that a new `MyBackendState` lists.
pub open spec fn initial_channels() -> Seq<ChannelView> {
    seq![
        ChannelView { id: "dummy_channel_1"@, name: "Dummy Channel 1"@ },
        ChannelView { id: "dummy_channel_2"@, name: "Dummy Channel oj"@ },
        ChannelView { id: "dummy_channel_3"@, name: "Dummy Channel 3"@ },
    ]
}

impl MyBackendState {
    /// A state that lists the three initial channels.
    pub fn new() -> (state: Self)
        ensures
            channel_views(state.channels@) == initial_channels(),
    {
        let mut channels: Vec<Channel> = Vec::new();
        channels.push(
            Channel { id: "dummy_channel_1".to_owned(), name: "Dummy Channel 1".to_owned() },
        );
        channels.push(
            Channel { id: "dummy_channel_2".to_owned(), name: "Dummy Channel oj".to_owned() },
        );
        channels.push(
            Channel { id: "dummy_channel_3".to_owned(), name: "Dummy Channel 3".to_owned() },
        );
        Self { channels }
    }
}

/// A message as a backend stores it.
#[derive(Debug)]
pub struct Message {
    pub id: u64,
    pub channel_id: String,
    pub author: String,
    pub content: String,
}

/// What a `Message` holds.
pub struct MessageView {
    pub id: u64,
    pub channel_id: Seq<char>,
    pub author: Seq<char>,
    pub content: Seq<char>,
}

impl View for Message {
    type V = MessageView;

    open spec fn view(&self) -> MessageView {
        MessageView {
            id: self.id,
            channel_id: self.channel_id@,
            author: self.author@,
            content: self.content@,
        }
    }
}

impl Clone for Message {
    fn clone(&self) -> (m: Self)
        ensures
            m == *self,
    {
        Message {
            id: self.id,
            channel_id: self.channel_id.clone(),
            author: self.author.clone(),
            content: self.content.clone(),
        }
    }
}

/// The one-line rendering of a message: its four fields between braces, the
/// identifier in decimal and the three texts between double quotes, pasted in
/// as they are.
pub open spec fn message_line(m: MessageView) -> Seq<char> {
    "{\"message_id\": "@ + decimal(m.id as nat) + ", \"channel_id\": \""@ + m.channel_id
        + "\", \"author\": \""@ + m.author + "\", \"body\": \""@ + m.content + "\"}"@
}

/// Renders a message on one line.
pub fn display_message(message: &Message) -> (line: String)
    ensures
        line@ == message_line(message@),
{
    let mut line = "{\"message_id\": ".to_owned();
    let id = u64_to_decimal(message.id);
    line.append(id.as_str());
    line.append(", \"channel_id\": \"");
    line.append(message.channel_id.as_str());
    line.append("\", \"author\": \"");
    line.append(message.author.as_str());
    line.append("\", \"body\": \"");
    line.append(message.content.as_str());
    line.append("\"}");
    line
}

/// What a backend tells its listeners: the list of its channels, or one
/// message.
#[derive(Debug)]
pub enum BackendEvent {
    ChannelList { channels: Vec<Channel> },
    Message { channel_id: String, message_id: u64, body: String, author: String },
}

/// What a `BackendEvent` holds.
pub enum EventView {
    ChannelList { channels: Seq<ChannelView> },
    Message { channel_id: Seq<char>, message_id: u64, body: Seq<char>, author: Seq<char> },
}

impl View for BackendEvent {
    type V = EventView;

    open spec fn view(&self) -> EventView {
        match self {
            BackendEvent::ChannelList { channels } => EventView::ChannelList {
                channels: channel_views(channels@),
            },
            BackendEvent::Message { channel_id, message_id, body, author } => EventView::Message {
                channel_id: channel_id@,
                message_id: *message_id,
                body: body@,
                author: author@,
            },
        }
    }
}

/// The views of a sequence of events, in the same order.
pub open spec fn event_views(events: Seq<BackendEvent>) -> Seq<EventView> {
    events.map_values(|e: BackendEvent| e@)
}

/// One turn of a feed: the events it yields, and how long the feed then
/// rests before its next turn.
#[derive(Debug)]
pub struct FeedBatch {
    pub events: Vec<BackendEvent>,
    pub pause_millis: u64,
}

/// Whether `prefix` is the beginning of `whole`.
pub open spec fn starts_with(whole: Seq<EventView>, prefix: Seq<EventView>) -> bool {
    prefix.len() <= whole.len() && whole.subrange(0, prefix.len() as int) == prefix
}

/// What a connector to a chat service offers.
///
/// A backend is described by two things that its listeners can observe: the
/// channels it reports, and the events that were posted to it and that no
/// feed has handed out yet.
pub trait ChatBackend {
    /// The place of one listener in the backend's stream of events.
    type Feed;

    /// The channels that the backend reports.
    spec fn channel_set(&self) -> Seq<ChannelView>;

    /// The posted events that no feed has handed out yet, oldest first.
    spec fn pending(&self) -> Seq<EventView>;

    /// The event that a successful post of `content` to `channel_id` adds.
    spec fn posted_event(&self, channel_id: Seq<char>, content: Seq<char>) -> EventView;

    /// Opens a session and returns its token.
    fn login(&self, username: &str, password: &str) -> (r: Result<String, LoginError>);

    /// The channels as they are now, as one event.
    fn list_channels(&self) -> (event: BackendEvent)
        ensures
            event@ == (EventView::ChannelList { channels: self.channel_set() }),
    ;

    /// A new feed of the backend's events, independent of every other feed.
    fn get_messages(&self) -> (feed: Self::Feed);

    /// Posts `content` to `channel_id`. On success the message is the newest
    /// pending event; on failure nothing is pending that was not before.
    fn post_message(&mut self, channel_id: &str, content: &str) -> (r: Result<(), PostError>)
        ensures
            r is Ok ==> final(self).pending() == old(self).pending().push(
                old(self).posted_event(channel_id@, content@),
            ),
            r is Ok ==> (old(self).posted_event(channel_id@, content@) matches EventView::Message {
                channel_id: c,
                body: b,
                ..
            } && c == channel_id@ && b == content@),
            r is Err ==> final(self).pending() == old(self).pending(),
    ;

    /// One turn of `feed`: every pending event, oldest first, and after them
    /// what the backend itself has to tell. Nothing is pending afterwards.
    /// `None` when the feed has ended; the backend is then as it was.
    fn next_events(&mut self, feed: &mut Self::Feed) -> (batch: Option<FeedBatch>)
        ensures
            batch matches Some(b) ==> starts_with(event_views(b.events@), old(self).pending())
                && final(self).pending() == Seq::<EventView>::empty(),
            batch is None ==> final(self).pending() == old(self).pending(),
    ;
}

} // verus!
