//! The backends that this crate knows, as one closed type, chosen by the
//! `backend` word of a service's configuration.

use crate::chat_backend::{
    event_views, BackendEvent, ChannelView, ChatBackend, EventView, FeedBatch, LoginError,
    PostError,
};
use crate::dummy_backend::{
    dummy_channels, synthetic_pair, DummyBackend, DummyFeed, FEED_PAUSE_MILLIS,
};
use crate::text::str_eq;
use vstd::prelude::*;

verus! {

/// A backend of one of the known kinds.
#[derive(Debug)]
pub enum Backend {
    Dummy(DummyBackend),
}

/// What a `Backend` is to its listeners.
pub enum BackendView {
    Dummy { pending: Seq<EventView> },
}

/// A feed of a `Backend`, of the same kind as the backend that opened it.
#[derive(Debug)]
pub enum BackendFeed {
    Dummy(DummyFeed),
}

impl View for Backend {
    type V = BackendView;

    open spec fn view(&self) -> BackendView {
        match self {
            Backend::Dummy(dummy) => BackendView::Dummy { pending: dummy@ },
        }
    }
}

impl BackendView {
    /// A backend of the kind that `kind` names, as it is when it is made:
    /// nothing is pending.
    pub open spec fn fresh(kind: Seq<char>) -> BackendView
        recommends
            kind_is_known(kind),
    {
        BackendView::Dummy { pending: Seq::<EventView>::empty() }
    }

    /// The posted events that no feed has handed out yet, oldest first.
    pub open spec fn pending(self) -> Seq<EventView> {
        match self {
            BackendView::Dummy { pending } => pending,
        }
    }

    /// The same backend with other pending events.
    pub open spec fn with_pending(self, pending: Seq<EventView>) -> BackendView {
        match self {
            BackendView::Dummy { .. } => BackendView::Dummy { pending },
        }
    }

    /// The channels that the backend reports.
    pub open spec fn channel_set(self) -> Seq<ChannelView> {
        match self {
            BackendView::Dummy { .. } => dummy_channels(),
        }
    }

    /// The event that a post of `content` to `channel_id` adds.
    pub open spec fn posted_event(self, channel_id: Seq<char>, content: Seq<char>) -> EventView {
        match self {
            BackendView::Dummy { .. } => EventView::Message {
                channel_id: channel_id,
                message_id: 0,
                body: content,
                author: "Good old me"@,
            },
        }
    }

    /// The feed that the backend opens for a new listener: at the synthetic
    /// backend it starts at identifier 1.
    pub open spec fn new_feed(self) -> BackendFeed {
        match self {
            BackendView::Dummy { .. } => BackendFeed::Dummy(DummyFeed { next_message_id: 1 }),
        }
    }

    /// Whether a post to the backend is sure to succeed: one to the
    /// synthetic backend is.
    pub open spec fn always_accepts(self) -> bool {
        self is Dummy
    }

    /// The backend after a post of `content` to `channel_id`.
    pub open spec fn after_post(self, channel_id: Seq<char>, content: Seq<char>) -> BackendView {
        self.with_pending(self.pending().push(self.posted_event(channel_id, content)))
    }
}

/// The events of one turn of `feed` on `backend`, or `None` where the feed
/// has ended. A turn of a feed of the synthetic backend is the pending events
/// followed by the two messages that the backend makes up; the feed has ended
/// when it has no two identifiers left.
pub open spec fn turn_events(backend: BackendView, feed: BackendFeed) -> Option<Seq<EventView>> {
    match (backend, feed) {
        (BackendView::Dummy { pending }, BackendFeed::Dummy(cursor)) => if cursor.live() {
            Some(pending + synthetic_pair(cursor.next_message_id))
        } else {
            None
        },
    }
}

/// The feed after one turn: a feed of the synthetic backend has moved on by
/// two identifiers, unless it has ended.
pub open spec fn feed_after_turn(feed: BackendFeed) -> BackendFeed {
    match feed {
        BackendFeed::Dummy(cursor) => if cursor.live() {
            BackendFeed::Dummy(
                DummyFeed { next_message_id: (cursor.next_message_id + 2) as u64 },
            )
        } else {
            feed
        },
    }
}

/// The channels of a backend never change: not by a post, and not by a turn
/// of a feed. For the synthetic backend they are the same two at all times.
pub proof fn lemma_channels_never_change(
    backend: BackendView,
    channel_id: Seq<char>,
    content: Seq<char>,
    pending: Seq<EventView>,
)
    ensures
        backend.after_post(channel_id, content).channel_set() == backend.channel_set(),
        backend.with_pending(pending).channel_set() == backend.channel_set(),
        backend is Dummy ==> backend.channel_set() == dummy_channels(),
{
}

/// A post loses nothing: what was pending stays pending, in its order, and
/// the new message comes right after it.
pub proof fn lemma_post_keeps_what_is_pending(
    backend: BackendView,
    channel_id: Seq<char>,
    content: Seq<char>,
)
    ensures
        ({
            let after = backend.after_post(channel_id, content).pending();
            let before = backend.pending();
            &&& after.len() == before.len() + 1
            &&& after.subrange(0, before.len() as int) == before
            &&& after.last() == backend.posted_event(channel_id, content)
        }),
{
}

/// A turn of a feed hands out everything that was posted before it, in the
/// order in which it was posted, ahead of the two messages that the
/// synthetic backend makes up in that turn.
pub proof fn lemma_posted_events_come_first(backend: BackendView, feed: BackendFeed)
    requires
        turn_events(backend, feed) is Some,
    ensures
        ({
            let events = turn_events(backend, feed)->0;
            let posted = backend.pending().len() as int;
            &&& events.len() == posted + 2
            &&& events.subrange(0, posted) == backend.pending()
            &&& feed matches BackendFeed::Dummy(cursor) && events.subrange(posted, posted + 2)
                == synthetic_pair(cursor.next_message_id)
        }),
{
}

/// The identifiers that a feed of the synthetic backend gives out grow from
/// turn to turn: the two of one turn are below the two of the next.
pub proof fn lemma_identifiers_increase(feed: BackendFeed)
    requires
        feed matches BackendFeed::Dummy(cursor) && cursor.live(),
    ensures
        feed matches BackendFeed::Dummy(cursor) && feed_after_turn(feed) matches BackendFeed::Dummy(
            next,
        ) && cursor.next_message_id < cursor.next_message_id + 1 < next.next_message_id,
{
}

/// The backend kind that the word `kind` names: `"dummy"` names the
/// synthetic backend, and no other word names any.
pub open spec fn kind_is_known(kind: Seq<char>) -> bool {
    kind == "dummy"@
}

impl Backend {
    /// Whether `kind` names a kind of backend.
    pub fn knows_kind(kind: &str) -> (known: bool)
        ensures
            known == kind_is_known(kind@),
    {
        str_eq(kind, "dummy")
    }

    /// A new backend of the kind that `kind` names, if it names one.
    pub fn from_kind(kind: &str) -> (backend: Option<Backend>)
        ensures
            backend is Some == kind_is_known(kind@),
            backend matches Some(b) ==> b@ == BackendView::fresh(kind@),
    {
        if Backend::knows_kind(kind) {
            Some(Backend::Dummy(DummyBackend::new()))
        } else {
            None
        }
    }
}

impl ChatBackend for Backend {
    type Feed = BackendFeed;

    open spec fn channel_set(&self) -> Seq<ChannelView> {
        self@.channel_set()
    }

    open spec fn pending(&self) -> Seq<EventView> {
        self@.pending()
    }

    open spec fn posted_event(&self, channel_id: Seq<char>, content: Seq<char>) -> EventView {
        self@.posted_event(channel_id, content)
    }

    /// A login at the synthetic backend always succeeds, with the same token.
    fn login(&self, username: &str, password: &str) -> (r: Result<String, LoginError>)
        ensures
            *self is Dummy ==> (r matches Ok(token) && token@ == "dummy_session_token"@),
    {
        match self {
            Backend::Dummy(dummy) => dummy.login(username, password),
        }
    }

    fn list_channels(&self) -> (event: BackendEvent) {
        match self {
            Backend::Dummy(dummy) => dummy.list_channels(),
        }
    }

    fn get_messages(&self) -> (feed: BackendFeed)
        ensures
            feed == self@.new_feed(),
    {
        match self {
            Backend::Dummy(dummy) => BackendFeed::Dummy(dummy.get_messages()),
        }
    }

    fn post_message(&mut self, channel_id: &str, content: &str) -> (r: Result<(), PostError>)
        ensures
            old(self)@.always_accepts() ==> r is Ok,
            r is Ok ==> final(self)@ == old(self)@.after_post(channel_id@, content@),
            r is Err ==> final(self)@ == old(self)@,
    {
        match self {
            Backend::Dummy(dummy) => dummy.post_message(channel_id, content),
        }
    }

    /// A turn of a feed of the synthetic backend is the pending events and
    /// then the two made-up messages; the feed ends when its identifiers run
    /// out.
    fn next_events(&mut self, feed: &mut BackendFeed) -> (batch: Option<FeedBatch>)
        ensures
            batch is Some == turn_events(old(self)@, *old(feed)) is Some,
            batch matches Some(b) ==> {
                &&& Some(event_views(b.events@)) == turn_events(old(self)@, *old(feed))
                &&& b.pause_millis == FEED_PAUSE_MILLIS
                &&& final(self)@ == old(self)@.with_pending(Seq::<EventView>::empty())
                &&& *final(feed) == feed_after_turn(*old(feed))
            },
            batch is None ==> final(self)@ == old(self)@ && *final(feed) == *old(feed),
    {
        match (self, feed) {
            (Backend::Dummy(dummy), BackendFeed::Dummy(cursor)) => dummy.next_events(cursor),
        }
    }
}

} // verus!
