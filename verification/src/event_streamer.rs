//! The event side: what the worker of one service sends downstream, step by
//! step. The first step sends the service's channels, the second opens the
//! backend's feed, and every later one is one turn of that feed.
//!
//! Each step is one call on the service's backend. The worker that drives a
//! streamer holds the registry only for that call, and writes the events and
//! rests after it has let go.

use crate::backend::{feed_after_turn, turn_events, BackendFeed, BackendView};
use crate::chat_backend::{event_views, BackendEvent, EventView, FeedBatch};
use crate::dummy_backend::FEED_PAUSE_MILLIS;
use crate::registry::Registry;
use vstd::prelude::*;

verus! {

/// How far the worker of one service has come.
#[derive(Debug)]
pub enum StreamState {
    /// Nothing was sent yet.
    Start,
    /// The channels were sent; the feed is not open yet.
    Snapshotted,
    /// The feed is open.
    Feeding(BackendFeed),
    /// The feed has ended. Nothing follows.
    Ended,
}

/// The worker of one service.
#[derive(Debug)]
pub struct EventStreamer {
    pub service: String,
    pub state: StreamState,
}

/// One step of a worker: the events to send and the rest to take after
/// them, or `None` where the worker is done; the state it is in afterwards;
/// and the registry afterwards.
pub struct StreamStep {
    pub batch: Option<(Seq<EventView>, u64)>,
    pub state: StreamState,
    pub services: Map<Seq<char>, BackendView>,
}

/// The step that a worker for `service` takes from `state` in a registry
/// that holds `services`.
///
/// The first step sends the channels of the service. The second opens the
/// feed and sends nothing. Every later step is one turn of the feed, which
/// takes what is pending at the service's backend and leaves every other
/// backend as it is. A worker whose service is not registered, or whose feed
/// has ended, is done.
pub open spec fn stream_step(
    service: Seq<char>,
    state: StreamState,
    services: Map<Seq<char>, BackendView>,
) -> StreamStep {
    let done = StreamStep { batch: None, state: StreamState::Ended, services };
    if !services.contains_key(service) {
        done
    } else {
        match state {
            StreamState::Start => StreamStep {
                batch: Some(
                    (seq![EventView::ChannelList { channels: services[service].channel_set() }], 0),
                ),
                state: StreamState::Snapshotted,
                services,
            },
            StreamState::Snapshotted => StreamStep {
                batch: Some((Seq::<EventView>::empty(), 0)),
                state: StreamState::Feeding(services[service].new_feed()),
                services,
            },
            StreamState::Feeding(feed) => match turn_events(services[service], feed) {
                Some(events) => StreamStep {
                    batch: Some((events, FEED_PAUSE_MILLIS)),
                    state: StreamState::Feeding(feed_after_turn(feed)),
                    services: services.insert(
                        service,
                        services[service].with_pending(Seq::<EventView>::empty()),
                    ),
                },
                None => done,
            },
            StreamState::Ended => done,
        }
    }
}

/// What a batch holds.
pub open spec fn batch_view(batch: Option<FeedBatch>) -> Option<(Seq<EventView>, u64)> {
    match batch {
        Some(b) => Some((event_views(b.events@), b.pause_millis)),
        None => None,
    }
}

impl EventStreamer {
    /// A worker for `service` that has sent nothing yet.
    pub fn new(service: String) -> (streamer: Self)
        ensures
            streamer.service == service,
            streamer.state == StreamState::Start,
    {
        EventStreamer { service, state: StreamState::Start }
    }

    /// Takes the worker's next step: returns the batch to send, or `None`
    /// where the worker is done.
    pub fn next_batch(&mut self, registry: &mut Registry) -> (batch: Option<FeedBatch>)
        ensures
            final(self).service == old(self).service,
            (StreamStep {
                batch: batch_view(batch),
                state: final(self).state,
                services: final(registry)@,
            }) == stream_step(old(self).service@, old(self).state, old(registry)@),
    {
        let service = self.service.as_str();
        match &mut self.state {
            StreamState::Start => {
                match registry.list_channels(service) {
                    Some(snapshot) => {
                        self.state = StreamState::Snapshotted;
                        let mut events: Vec<BackendEvent> = Vec::new();
                        events.push(snapshot);
                        assert(event_views(events@) =~= seq![snapshot@]);
                        Some(FeedBatch { events, pause_millis: 0 })
                    },
                    None => {
                        self.state = StreamState::Ended;
                        None
                    },
                }
            },
            StreamState::Snapshotted => {
                match registry.get_messages(service) {
                    Some(feed) => {
                        self.state = StreamState::Feeding(feed);
                        let events: Vec<BackendEvent> = Vec::new();
                        assert(event_views(events@) =~= Seq::<EventView>::empty());
                        Some(FeedBatch { events, pause_millis: 0 })
                    },
                    None => {
                        self.state = StreamState::Ended;
                        None
                    },
                }
            },
            StreamState::Feeding(feed) => {
                let batch = registry.next_events(service, feed);
                if batch.is_none() {
                    self.state = StreamState::Ended;
                }
                batch
            },
            StreamState::Ended => None,
        }
    }
}

} // verus!
