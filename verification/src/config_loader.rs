//! Startup: from the configured services to the registry of their backends.
//!
//! The configuration itself is read and parsed elsewhere. What arrives here
//! is its content: the services in the order in which they were found, each
//! with the word that names its kind of backend and with its parameters.

use crate::backend::{kind_is_known, Backend, BackendView};
use crate::registry::Registry;
use vstd::prelude::*;

verus! {

/// What the configuration says of one service.
#[derive(Debug)]
pub struct ServiceConfig {
    /// The word that names the kind of backend.
    pub backend: String,
    /// Parameters that only some kinds of backend read.
    pub server_url: Option<String>,
    pub username: Option<String>,
    pub password: Option<String>,
}

/// A service whose kind of backend is not known. Startup cannot go on.
#[derive(Debug)]
pub struct UnsupportedBackend {
    pub service: String,
    pub backend: String,
}

impl UnsupportedBackend {
    /// The text shown for this error.
    pub open spec fn text(&self) -> Seq<char> {
        "Unsupported backend: "@ + self.backend@
    }

    /// Renders the error for the message that ends the process.
    pub fn to_string(&self) -> (s: String)
        ensures
            s@ == self.text(),
    {
        let mut s = "Unsupported backend: ".to_owned();
        s.append(self.backend.as_str());
        s
    }
}

/// The registry that a list of services asks for: each name with a new
/// backend of its kind. Where a name occurs twice, the later entry stands.
pub open spec fn configured(services: Seq<(String, ServiceConfig)>) -> Map<Seq<char>, BackendView>
    decreases services.len(),
{
    if services.len() == 0 {
        Map::empty()
    } else {
        configured(services.drop_last()).insert(
            services.last().0@,
            BackendView::fresh(services.last().1.backend@),
        )
    }
}

/// Whether the first `upto` services are all of a known kind.
pub open spec fn all_known(services: Seq<(String, ServiceConfig)>, upto: int) -> bool {
    forall|i: int| 0 <= i < upto ==> kind_is_known(#[trigger] services[i].1.backend@)
}

/// Whether service `i` is the first whose kind of backend is not known.
pub open spec fn first_unknown(services: Seq<(String, ServiceConfig)>, i: int) -> bool {
    &&& 0 <= i < services.len()
    &&& all_known(services, i)
    &&& !kind_is_known(services[i].1.backend@)
}

/// Looks for a service whose kind of backend is not known, and names the
/// first one. A process asks this before it makes its registry, and cannot
/// go on where the answer is a service.
pub fn find_unsupported_backend(services: &Vec<(String, ServiceConfig)>) -> (refused: Option<
    UnsupportedBackend,
>)
    ensures
        refused is None == all_known(services@, services@.len() as int),
        refused matches Some(r) ==> exists|i: int|
            {
                &&& #[trigger] first_unknown(services@, i)
                &&& r.service@ == services@[i].0@
                &&& r.backend@ == services@[i].1.backend@
            },
{
    let mut i: usize = 0;
    while i < services.len()
        invariant
            i <= services@.len(),
            all_known(services@, i as int),
        decreases services@.len() - i,
    {
        let name = &services[i].0;
        let config = &services[i].1;
        if !Backend::knows_kind(config.backend.as_str()) {
            assert(first_unknown(services@, i as int));
            return Some(
                UnsupportedBackend { service: name.clone(), backend: config.backend.clone() },
            );
        }
        i += 1;
    }
    None
}

/// Makes the backend of every configured service and registers it under the
/// service's name.
///
/// Every service must be of a known kind: a configuration with any other
/// service gives no registry, and `find_unsupported_backend` tells which
/// service stands in the way.
pub fn load_config_and_instantiate_backend(services: &Vec<(String, ServiceConfig)>) -> (registry:
    Registry)
    requires
        all_known(services@, services@.len() as int),
    ensures
        registry@ == configured(services@),
{
    let mut registry = Registry::new();
    let mut i: usize = 0;
    while i < services.len()
        invariant
            i <= services@.len(),
            all_known(services@, services@.len() as int),
            registry@ == configured(services@.take(i as int)),
        decreases services@.len() - i,
    {
        let name = &services[i].0;
        let config = &services[i].1;
        match Backend::from_kind(config.backend.as_str()) {
            Some(backend) => {
                let _ = registry.insert(name.clone(), backend);
                proof {
                    assert(services@.take(i + 1).drop_last() =~= services@.take(i as int));
                }
            },
            None => unreached(),
        }
        i += 1;
    }
    proof {
        assert(services@.take(services@.len() as int) =~= services@);
    }
    registry
}

} // verus!
