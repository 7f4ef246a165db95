//! What ties the configuration sources to the stores: the xDS client for the
//! two watched types, and the rules by which a watched file is loaded again.

use crate::strng::new;
use crate::xds::ads::{expected_types, AdsClient};
use crate::xds::client::{Handler, ProtoMessage};
use crate::xds::config::{Config, Environment};
use vstd::prelude::*;

verus! {

/// The type of workload addresses.
pub const ADDRESS_TYPE: &'static str = "type.googleapis.com/agentgateway.dev.workload.Address";

/// The type of authorization policies. No handler is registered for it.
pub const AUTHORIZATION_TYPE: &'static str = "type.googleapis.com/istio.security.Authorization";

/// The type of gateway resources.
pub const ADP_TYPE: &'static str = "type.googleapis.com/agentgateway.dev.resource.Resource";

/// For how long changes of the watched file are gathered before they count
/// as one, in milliseconds.
pub const DEBOUNCE_MS: u64 = 250;

/// Where a local configuration comes from.
#[derive(Clone, Debug)]
pub enum ConfigSource {
    /// A file, by its path; it is watched.
    File(String),
    /// The text itself; it is loaded once.
    Static(String),
}

/// What the process is told about its dynamic configuration.
#[derive(Clone, Debug)]
pub struct XDSConfig {
    /// The control plane's address, where there is one.
    pub address: Option<String>,
    pub namespace: String,
    pub gateway: String,
    pub local_config: Option<ConfigSource>,
}

/// What a file watcher says happened to a path.
#[derive(Clone, Copy, Debug, PartialEq, Eq, Structural)]
pub enum EventKind {
    Any,
    Access,
    Create,
    Modify,
    Remove,
    Other,
}

/// What the last load left behind, by which the next load finds what to
/// delete.
#[derive(Clone, Debug, Default)]
pub struct PreviousState<B, D> {
    pub binds: B,
    pub discovery: D,
}

/// Whether any of the events is a change of content: a creation or a
/// modification.
pub open spec fn has_change(kinds: Seq<EventKind>) -> bool {
    exists|i: int|
        0 <= i < kinds.len() && (#[trigger] kinds[i] == EventKind::Create || kinds[i]
            == EventKind::Modify)
}

/// Reads a local configuration into the stores.
#[derive(Clone, Debug)]
pub struct LocalClient<S> {
    pub cfg: ConfigSource,
    pub stores: S,
}

impl<S> LocalClient<S> {
    /// Whether the configuration is a file that is to be watched, rather than
    /// a text that is loaded once.
    pub fn is_watched(&self) -> (r: bool)
        ensures
            r == (self.cfg is File),
    {
        match self.cfg {
            ConfigSource::File(_) => true,
            ConfigSource::Static(_) => false,
        }
    }

    /// Whether a batch of events calls for loading the file again: it does
    /// where any of them is a creation or a modification.
    pub fn should_reload(kinds: &Vec<EventKind>) -> (r: bool)
        ensures
            r == has_change(kinds@),
    {
        let mut i: usize = 0;
        while i < kinds.len()
            invariant
                i <= kinds.len(),
                forall|j: int|
                    0 <= j < i ==> !(#[trigger] kinds@[j] == EventKind::Create || kinds@[j]
                        == EventKind::Modify),
            decreases kinds.len() - i,
        {
            match kinds[i] {
                EventKind::Create => {
                    return true;
                },
                EventKind::Modify => {
                    return true;
                },
                _ => {},
            }
            i += 1;
        }
        false
    }

    /// Brings both stores up to date with a freshly read configuration:
    /// first the binds, then the discovery store, each told what the load
    /// before left behind. Syncing the discovery store may fail; the error is
    /// handed on, after the binds have been synced.
    pub fn reload_config<B, D, E, FB: FnOnce(B) -> B, FD: FnOnce(D) -> Result<D, E>>(
        prev: PreviousState<B, D>,
        sync_binds: FB,
        sync_discovery: FD,
    ) -> (r: Result<PreviousState<B, D>, E>)
        requires
            call_requires(sync_binds, (prev.binds,)),
            call_requires(sync_discovery, (prev.discovery,)),
        ensures
            match r {
                Ok(next) => call_ensures(sync_binds, (prev.binds,), next.binds) && call_ensures(
                    sync_discovery,
                    (prev.discovery,),
                    Ok(next.discovery),
                ),
                Err(e) => (exists|b: B| call_ensures(sync_binds, (prev.binds,), b)) && call_ensures(
                    sync_discovery,
                    (prev.discovery,),
                    Err(e),
                ),
            },
    {
        let PreviousState { binds, discovery } = prev;
        let next_binds = sync_binds(binds);
        match sync_discovery(discovery) {
            Ok(next_discovery) => Ok(PreviousState { binds: next_binds, discovery: next_discovery }),
            Err(e) => Err(e),
        }
    }

    /// The state to carry on after an attempt to load the file again: what
    /// the load left behind where it succeeded, and the state from before
    /// where it failed.
    pub fn after_reload<B, D, E>(prev: PreviousState<B, D>, outcome: Result<PreviousState<B, D>, E>) -> (r:
        PreviousState<B, D>)
        ensures
            r == match outcome {
                Ok(next) => next,
                Err(_) => prev,
            },
    {
        match outcome {
            Ok(next) => next,
            Err(_) => prev,
        }
    }
}

/// The stores, and the client that feeds them from the control plane where
/// one is configured.
pub struct StateManager<S> {
    stores: S,
    xds_client: Option<AdsClient>,
}

impl<S> StateManager<S> {
    /// The stores.
    pub closed spec fn spec_stores(&self) -> S {
        self.stores
    }

    /// The client, where a control plane is configured.
    pub closed spec fn client(&self) -> Option<AdsClient> {
        self.xds_client
    }

    /// Sets up the state for `config`. Where it names a control plane, a
    /// client is made that watches addresses with `discovery` and gateway
    /// resources with `binds`, each as a whole, and that holds
    /// `awaiting_ready` until both have been acknowledged. Where it names
    /// none, there is no client. Loading a local configuration is left to
    /// whoever can read it.
    pub fn new<A, R, HA, HR>(
        config: &XDSConfig,
        env: Environment,
        stores: S,
        discovery: HA,
        binds: HR,
        awaiting_ready: tokio::sync::watch::Sender<()>,
    ) -> (r: Self) where
        A: ProtoMessage + Send + Sync + 'static,
        R: ProtoMessage + Send + Sync + 'static,
        HA: Handler<A>,
        HR: Handler<R>,

        ensures
            r.spec_stores() == stores,
            r.client().is_some() == config.address.is_some(),
            r.client() matches Some(c) ==> {
                let cfg = c.spec_config();
                &&& c.wf()
                &&& !c.is_ready()
                &&& cfg.address() == config.address.unwrap()@
                &&& !cfg.is_on_demand()
                &&& cfg.handled() == set![ADDRESS_TYPE@, ADP_TYPE@]
                &&& c.expected() == set![ADDRESS_TYPE@, ADP_TYPE@]
                &&& cfg.initial_requests().len() == 2
                &&& cfg.initial_requests()[0].is_subscription(
                    ADDRESS_TYPE@,
                    Some(cfg.spec_node()),
                    Seq::empty(),
                    Seq::empty(),
                    Set::empty(),
                )
                &&& cfg.initial_requests()[1].is_subscription(
                    ADP_TYPE@,
                    Some(cfg.spec_node()),
                    Seq::empty(),
                    Seq::empty(),
                    Set::empty(),
                )
            },
    {
        let xds_client = match &config.address {
            Some(address) => {
                let c0 = Config::new(
                    address.clone(),
                    config.gateway.clone(),
                    config.namespace.clone(),
                    env,
                );
                let c1 = c0.with_watched_handler::<A, HA>(new(ADDRESS_TYPE), discovery);
                let c2 = c1.with_watched_handler::<R, HR>(new(ADP_TYPE), binds);
                proof {
                    assert(c0.watches(c1, ADDRESS_TYPE@, false));
                    assert(c1.watches(c2, ADP_TYPE@, false));
                    let reqs = c2.initial_requests();
                    assert(reqs[0] == reqs.drop_last()[0]);
                    assert(reqs[0] == c1.initial_requests().last());
                    assert(c2.spec_node() == c0.spec_node());
                    assert(c1.spec_node() == c0.spec_node());
                    assert(c2.handled() =~= set![ADDRESS_TYPE@, ADP_TYPE@]);
                    assert(reqs[0].resource_names_subscribe@.len() == crate::text::texts(
                        reqs[0].resource_names_subscribe@,
                    ).len());
                    assert(reqs[1].resource_names_subscribe@.len() == crate::text::texts(
                        reqs[1].resource_names_subscribe@,
                    ).len());
                    assert(expected_types(reqs) =~= set![ADDRESS_TYPE@, ADP_TYPE@]);
                }
                Some(c2.build(awaiting_ready))
            },
            None => None,
        };
        Self { stores, xds_client }
    }

    /// The stores.
    pub fn stores(&self) -> (r: &S)
        ensures
            *r == self.spec_stores(),
    {
        &self.stores
    }

    /// Takes the state apart: the stores, and the client that is to be run.
    pub fn into_parts(self) -> (r: (S, Option<AdsClient>))
        ensures
            r.0 == self.spec_stores(),
            r.1 == self.client(),
    {
        (self.stores, self.xds_client)
    }
}

} // verus!
