//! The registry: which backend serves which service name. It is filled at
//! startup; afterwards every operation is one call on the backend that a
//! name selects, and leaves every other backend as it was.

use crate::backend::{feed_after_turn, turn_events, Backend, BackendFeed, BackendView};
use crate::chat_backend::{
    event_views, BackendEvent, ChatBackend, EventView, FeedBatch, PostError,
};
use crate::dummy_backend::FEED_PAUSE_MILLIS;
use crate::text::str_eq;
use vstd::prelude::*;

verus! {

/// The backends of a process, each under its service name. No name occurs
/// twice.
#[derive(Debug)]
pub struct Registry {
    names: Vec<String>,
    backends: Vec<Backend>,
}

/// The characters of each name, in the same order.
pub open spec fn name_views(names: Seq<String>) -> Seq<Seq<char>> {
    names.map_values(|n: String| n@)
}

impl View for Registry {
    type V = Map<Seq<char>, BackendView>;

    /// The registry as a map from service name to backend.
    closed spec fn view(&self) -> Map<Seq<char>, BackendView> {
        Map::new(
            |name: Seq<char>| self.has_name(name),
            |name: Seq<char>| self.backends@[self.slot_of(name)]@,
        )
    }
}

impl Registry {
    #[verifier::type_invariant]
    spec fn well_formed(self) -> bool {
        &&& self.names@.len() == self.backends@.len()
        &&& forall|i: int, j: int|
            0 <= i < j < self.names@.len() ==> self.names@[i]@ != self.names@[j]@
    }

    spec fn has_name(self, name: Seq<char>) -> bool {
        exists|i: int| 0 <= i < self.names@.len() && #[trigger] self.names@[i]@ == name
    }

    spec fn slot_of(self, name: Seq<char>) -> int {
        choose|i: int| 0 <= i < self.names@.len() && #[trigger] self.names@[i]@ == name
    }

    /// The name in slot `i` is in the map, with the backend of that slot.
    proof fn lemma_slot(self, i: int)
        requires
            self.well_formed(),
            0 <= i < self.names@.len(),
        ensures
            self@.contains_key(self.names@[i]@),
            self@[self.names@[i]@] == self.backends@[i]@,
            self.slot_of(self.names@[i]@) == i,
    {
        // Slot `i` holds the name, and no other slot does.
        assert(self.slot_of(self.names@[i]@) == i);
    }

    /// Changing the backend in one slot changes the map at that slot's name
    /// and nowhere else.
    proof fn lemma_slot_updated(self, after: Self, i: int)
        requires
            self.well_formed(),
            0 <= i < self.names@.len(),
            after.names@ == self.names@,
            after.backends@ == self.backends@.update(i, after.backends@[i]),
        ensures
            after.well_formed(),
            after@ == self@.insert(self.names@[i]@, after.backends@[i]@),
    {
        let target = self@.insert(self.names@[i]@, after.backends@[i]@);
        self.lemma_slot(i);
        assert forall|name: Seq<char>| after@.contains_key(name) implies target.contains_key(name)
            && after@[name] == target[name] by {
            let k = after.slot_of(name);
            after.lemma_slot(k);
            self.lemma_slot(k);
        }
        assert forall|name: Seq<char>| target.contains_key(name) implies after@.contains_key(
            name,
        ) by {
            if name != self.names@[i]@ {
                let k = self.slot_of(name);
                after.lemma_slot(k);
            } else {
                after.lemma_slot(i);
            }
        }
    }

    /// A new name with its backend adds one entry to the map.
    proof fn lemma_pushed(self, after: Self)
        requires
            self.well_formed(),
            after.names@ == self.names@.push(after.names@.last()),
            after.backends@ == self.backends@.push(after.backends@.last()),
            !self.has_name(after.names@.last()@),
        ensures
            after.well_formed(),
            after@ == self@.insert(after.names@.last()@, after.backends@.last()@),
    {
        let n = self.names@.len() as int;
        // The new name differs from every old one, so the names stay distinct.
        assert(after.well_formed()) by {
            assert forall|i: int, j: int| 0 <= i < j < after.names@.len() implies after.names@[i]@
                != after.names@[j]@ by {
                assert(after.names@[i] == self.names@[i]);
            }
        }
        let target = self@.insert(after.names@.last()@, after.backends@.last()@);
        after.lemma_slot(n);
        assert forall|name: Seq<char>| after@.contains_key(name) implies target.contains_key(name)
            && after@[name] == target[name] by {
            let k = after.slot_of(name);
            after.lemma_slot(k);
            if k < n {
                self.lemma_slot(k);
            }
        }
        assert forall|name: Seq<char>| target.contains_key(name) implies after@.contains_key(
            name,
        ) by {
            if name != after.names@.last()@ {
                let k = self.slot_of(name);
                after.lemma_slot(k);
            }
        }
    }

    /// The names of the map are the names in the slots, each once.
    proof fn lemma_dom(self)
        requires
            self.well_formed(),
        ensures
            self@.dom() == name_views(self.names@).to_set(),
            self@.dom().finite(),
            self@.dom().len() == self.names@.len(),
            name_views(self.names@).no_duplicates(),
    {
        let views = name_views(self.names@);
        assert forall|name: Seq<char>| self@.dom().contains(name) == views.to_set().contains(
            name,
        ) by {
            if self.has_name(name) {
                let k = self.slot_of(name);
                assert(views[k] == name);
            }
            if views.contains(name) {
                let k = choose|k: int| 0 <= k < views.len() && views[k] == name;
                assert(self.names@[k]@ == name);
            }
        }
        assert(views.no_duplicates()) by {
            assert forall|i: int, j: int|
                0 <= i < views.len() && 0 <= j < views.len() && i != j implies views[i]
                != views[j] by {
                assert(i < j || j < i);
            }
        }
        views.unique_seq_to_set();
        vstd::seq_lib::seq_to_set_is_finite(views);
    }

    fn find(&self, name: &str) -> (r: Option<usize>)
        ensures
            r matches Some(i) ==> i < self.names@.len() && self.names@[i as int]@ == name@,
            r is None ==> !self.has_name(name@),
    {
        let mut i: usize = 0;
        while i < self.names.len()
            invariant
                i <= self.names@.len(),
                forall|j: int| 0 <= j < i ==> self.names@[j]@ != name@,
            decreases self.names@.len() - i,
        {
            if str_eq(self.names[i].as_str(), name) {
                return Some(i);
            }
            i += 1;
        }
        None
    }

    /// A registry without services.
    pub fn new() -> (registry: Self)
        ensures
            registry@ == Map::<Seq<char>, BackendView>::empty(),
    {
        Registry { names: Vec::new(), backends: Vec::new() }
    }

    /// Registers `backend` under `service`, in place of the backend that was
    /// registered under that name, if there was one; that one is returned.
    pub fn insert(&mut self, service: String, backend: Backend) -> (previous: Option<Backend>)
        ensures
            final(self)@ == old(self)@.insert(service@, backend@),
            previous is Some == old(self)@.contains_key(service@),
            previous matches Some(b) ==> b@ == old(self)@[service@],
    {
        proof {
            use_type_invariant(&*self);
        }
        match self.find(service.as_str()) {
            Some(i) => {
                proof {
                    self.lemma_slot(i as int);
                }
                let mut incoming = backend;
                std::mem::swap(&mut self.backends[i], &mut incoming);
                proof {
                    old(self).lemma_slot_updated(*self, i as int);
                }
                Some(incoming)
            },
            None => {
                let mut taken = Registry::new();
                std::mem::swap(self, &mut taken);
                let Registry { mut names, mut backends } = taken;
                names.push(service);
                backends.push(backend);
                let grown = Registry { names, backends };
                proof {
                    old(self).lemma_pushed(grown);
                }
                *self = grown;
                None
            },
        }
    }

    /// How many services are registered.
    pub fn len(&self) -> (n: usize)
        ensures
            self@.dom().finite(),
            n == self@.dom().len(),
    {
        proof {
            use_type_invariant(self);
            self.lemma_dom();
        }
        self.names.len()
    }

    /// The names of the registered services, each once.
    pub fn service_names(&self) -> (names: Vec<String>)
        ensures
            name_views(names@).no_duplicates(),
            name_views(names@).to_set() == self@.dom(),
    {
        proof {
            use_type_invariant(self);
            self.lemma_dom();
        }
        let mut names: Vec<String> = Vec::new();
        let mut i: usize = 0;
        while i < self.names.len()
            invariant
                i <= self.names@.len(),
                names@.len() == i,
                forall|j: int| 0 <= j < i ==> names@[j]@ == self.names@[j]@,
            decreases self.names@.len() - i,
        {
            names.push(self.names[i].clone());
            i += 1;
        }
        assert(name_views(names@) =~= name_views(self.names@));
        names
    }

    /// Whether a backend is registered under `service`.
    pub fn contains(&self, service: &str) -> (found: bool)
        ensures
            found == self@.contains_key(service@),
    {
        proof {
            use_type_invariant(self);
        }
        match self.find(service) {
            Some(i) => {
                proof {
                    self.lemma_slot(i as int);
                }
                true
            },
            None => false,
        }
    }

    /// The backend registered under `service`, if there is one.
    pub fn lookup(&self, service: &str) -> (handle: Option<&Backend>)
        ensures
            handle is Some == self@.contains_key(service@),
            handle matches Some(backend) ==> backend@ == self@[service@],
    {
        proof {
            use_type_invariant(self);
        }
        match self.find(service) {
            Some(i) => {
                proof {
                    self.lemma_slot(i as int);
                }
                Some(&self.backends[i])
            },
            None => None,
        }
    }

    /// The channels of the backend registered under `service`, as one event.
    pub fn list_channels(&self, service: &str) -> (event: Option<BackendEvent>)
        ensures
            event is Some == self@.contains_key(service@),
            event matches Some(e) ==> e@ == (EventView::ChannelList {
                channels: self@[service@].channel_set(),
            }),
    {
        match self.lookup(service) {
            Some(backend) => Some(backend.list_channels()),
            None => None,
        }
    }

    /// A new feed of the backend registered under `service`.
    pub fn get_messages(&self, service: &str) -> (feed: Option<BackendFeed>)
        ensures
            feed is Some == self@.contains_key(service@),
            feed matches Some(f) ==> f == self@[service@].new_feed(),
    {
        match self.lookup(service) {
            Some(backend) => Some(backend.get_messages()),
            None => None,
        }
    }

    /// Posts `content` to `channel_id` at the backend registered under
    /// `service`, and at no other. `None` where no backend is registered
    /// under that name: then no backend was called.
    pub fn post_message(&mut self, service: &str, channel_id: &str, content: &str) -> (r: Option<
        Result<(), PostError>,
    >)
        ensures
            r is Some == old(self)@.contains_key(service@),
            r matches Some(outcome) ==> (old(self)@[service@].always_accepts() ==> outcome is Ok),
            r matches Some(Ok(_)) ==> final(self)@ == old(self)@.insert(
                service@,
                old(self)@[service@].after_post(channel_id@, content@),
            ),
            !(r matches Some(Ok(_))) ==> final(self)@ == old(self)@,
    {
        proof {
            use_type_invariant(&*self);
        }
        match self.find(service) {
            Some(i) => {
                proof {
                    self.lemma_slot(i as int);
                }
                let outcome = self.backends[i].post_message(channel_id, content);
                proof {
                    old(self).lemma_slot_updated(*self, i as int);
                    if outcome is Err {
                    }
                }
                Some(outcome)
            },
            None => None,
        }
    }

    /// One turn of `feed` at the backend registered under `service`: what
    /// was posted to it and not yet handed out, then what the backend itself
    /// has to tell. `None` where the feed has ended or no backend is
    /// registered under that name: then nothing has changed.
    pub fn next_events(&mut self, service: &str, feed: &mut BackendFeed) -> (batch: Option<
        FeedBatch,
    >)
        ensures
            batch is Some == (old(self)@.contains_key(service@) && turn_events(
                old(self)@[service@],
                *old(feed),
            ) is Some),
            batch matches Some(b) ==> {
                &&& Some(event_views(b.events@)) == turn_events(old(self)@[service@], *old(feed))
                &&& b.pause_millis == FEED_PAUSE_MILLIS
                &&& final(self)@ == old(self)@.insert(
                    service@,
                    old(self)@[service@].with_pending(Seq::<EventView>::empty()),
                )
                &&& *final(feed) == feed_after_turn(*old(feed))
            },
            batch is None ==> final(self)@ == old(self)@ && *final(feed) == *old(feed),
    {
        proof {
            use_type_invariant(&*self);
        }
        match self.find(service) {
            Some(i) => {
                proof {
                    self.lemma_slot(i as int);
                }
                let batch = self.backends[i].next_events(feed);
                proof {
                    old(self).lemma_slot_updated(*self, i as int);
                    if batch is None {
                    }
                }
                batch
            },
            None => None,
        }
    }
}

} // verus!
