//! The client itself: what it sends when a connection opens, how it answers
//! each response, what it does with a demand, and how long it waits before it
//! connects again.

use crate::assoc::{Key, KeySet};
use crate::text::{clone_strings, texts};
use crate::strng::{new, strng_chars};
use crate::xds::client::{
    acknowledge, is_answer, known_after, pending_after, rejected_in, rejects_missing, RawHandler,
    ResourceKey, State, XdsSignal,
};
use crate::xds::config::Config;
use crate::xds::proto::{node_view, resource_names, DeltaDiscoveryRequest, DeltaDiscoveryResponse};
use vstd::prelude::*;

verus! {

/// The sending half of `tokio::sync::watch`, carried as it is. Letting go of
/// it is what tells the receivers.
#[verifier::external_type_specification]
#[verifier::external_body]
#[verifier::reject_recursive_types(T)]
pub struct ExWatchSender<T>(tokio::sync::watch::Sender<T>);

/// The wait before the first reconnection, in milliseconds.
pub const INITIAL_BACKOFF_MS: u64 = 10;

/// The longest wait before a reconnection, in milliseconds.
pub const MAX_BACKOFF_MS: u64 = 15000;

/// How many demands may wait to be taken up before a demander has to wait.
pub const DEMAND_CHANNEL_CAPACITY: usize = 100;

/// The largest response that is decoded, in bytes: 200 MiB.
pub const MAX_DECODING_MESSAGE_SIZE: usize = 209715200;

/// The status codes of gRPC.
#[derive(Clone, Copy, Debug, PartialEq, Eq, Structural)]
pub enum Code {
    /// Not an error; the status that tonic calls `Ok`.
    Success,
    Cancelled,
    Unknown,
    InvalidArgument,
    DeadlineExceeded,
    NotFound,
    AlreadyExists,
    PermissionDenied,
    ResourceExhausted,
    FailedPrecondition,
    Aborted,
    OutOfRange,
    Unimplemented,
    Internal,
    Unavailable,
    DataLoss,
    Unauthenticated,
}

/// How a connection ended.
#[derive(Clone, Debug, PartialEq, Eq)]
pub enum ConnectionOutcome {
    /// The control plane could not be reached.
    Connection,
    /// The transport failed.
    Transport,
    /// The stream ended with a gRPC status.
    GrpcStatus { code: Code, message: String },
    /// Any other error.
    Other,
    /// The stream ended cleanly.
    Complete,
}

/// Why a connection ended, as it is counted.
#[derive(Clone, Copy, Debug, PartialEq, Eq, Structural)]
pub enum ConnectionTerminationReason {
    ConnectionError,
    Reconnect,
    Error,
    Complete,
}

/// What to do after a connection has ended.
#[derive(Clone, Copy, Debug, PartialEq, Eq, Structural)]
pub struct Retry {
    /// The backoff to carry into the next round, in milliseconds.
    pub backoff_ms: u64,
    /// Whether to wait for that long before connecting again.
    pub sleep: bool,
    /// Under which reason the ending is counted.
    pub reason: ConnectionTerminationReason,
}

/// `needle` occurs in `haystack` as a run of consecutive characters.
pub open spec fn has_subtext(haystack: Seq<char>, needle: Seq<char>) -> bool {
    exists|i: int|
        0 <= i && i + needle.len() <= haystack.len() && #[trigger] haystack.subrange(
            i,
            i + needle.len(),
        ) == needle
}

/// Whether `needle` occurs in `haystack`.
///
/// Trusted: `str::contains` returns true exactly if the pattern matches a
/// sub-slice of the string.
#[verifier::external_body]
fn contains_text(haystack: &str, needle: &str) -> (r: bool)
    ensures
        r == has_subtext(haystack@, needle@),
{
    haystack.contains(needle)
}

/// Twice the backoff, and at most the cap.
pub open spec fn escalated(backoff_ms: int) -> int {
    if 2 * backoff_ms <= MAX_BACKOFF_MS {
        2 * backoff_ms
    } else {
        MAX_BACKOFF_MS as int
    }
}

/// Whether a gRPC status is an ordinary end of a connection: a cancellation,
/// a deadline, or an unavailability that says that the transport is closing
/// or that a goaway came before.
pub open spec fn is_normal_close(code: Code, message: Seq<char>) -> bool {
    ||| code == Code::Cancelled
    ||| code == Code::DeadlineExceeded
    ||| (code == Code::Unavailable && has_subtext(message, "transport is closing"@))
    ||| (code == Code::Unavailable && has_subtext(message, "received prior goaway"@))
}

/// What to do after a connection that ended in `outcome`, with `backoff_ms`
/// carried from the round before.
pub open spec fn retry_after(outcome: ConnectionOutcome, backoff_ms: u64) -> Retry {
    match outcome {
        ConnectionOutcome::Connection | ConnectionOutcome::Transport => Retry {
            backoff_ms: escalated(backoff_ms as int) as u64,
            sleep: true,
            reason: ConnectionTerminationReason::ConnectionError,
        },
        ConnectionOutcome::GrpcStatus { code, message } => if is_normal_close(code, message@) {
            Retry {
                backoff_ms: INITIAL_BACKOFF_MS,
                sleep: true,
                reason: ConnectionTerminationReason::Reconnect,
            }
        } else {
            Retry {
                backoff_ms: escalated(backoff_ms as int) as u64,
                sleep: true,
                reason: ConnectionTerminationReason::Error,
            }
        },
        ConnectionOutcome::Other => Retry {
            backoff_ms: INITIAL_BACKOFF_MS,
            sleep: false,
            reason: ConnectionTerminationReason::Error,
        },
        ConnectionOutcome::Complete => Retry {
            backoff_ms: INITIAL_BACKOFF_MS,
            sleep: false,
            reason: ConnectionTerminationReason::Complete,
        },
    }
}

/// Twice the backoff, and at most the cap.
fn escalate(backoff_ms: u64) -> (r: u64)
    ensures
        r == escalated(backoff_ms as int),
{
    if backoff_ms > MAX_BACKOFF_MS / 2 {
        MAX_BACKOFF_MS
    } else {
        2 * backoff_ms
    }
}

/// The types whose first acknowledgement the client waits for before it
/// calls itself ready: those of the initial requests that subscribe to
/// nothing by name.
pub open spec fn expected_types(requests: Seq<DeltaDiscoveryRequest>) -> Set<Seq<char>> {
    Set::new(
        |t: Seq<char>|
            exists|i: int|
                0 <= i < requests.len() && (#[trigger] requests[i]).type_url@ == t
                    && requests[i].resource_names_subscribe@.len() == 0,
    )
}

/// A delta xDS client without its connection: the setup, the cache, and what
/// is still awaited before the process counts as ready.
pub struct AdsClient {
    config: Config,
    state: State,
    block_ready: Option<tokio::sync::watch::Sender<()>>,
    connection_id: u32,
    types_to_expect: KeySet<String>,
}

impl AdsClient {
    /// The setup.
    pub closed spec fn spec_config(&self) -> Config {
        self.config
    }

    /// The cache and the waiters.
    pub closed spec fn state(&self) -> State {
        self.state
    }

    /// Whether the readiness signal has been given, by letting go of it.
    pub closed spec fn is_ready(&self) -> bool {
        self.block_ready.is_none()
    }

    /// How many connections were begun.
    pub closed spec fn connection_id(&self) -> u32 {
        self.connection_id
    }

    /// The types whose first acknowledgement is still awaited.
    pub closed spec fn expected(&self) -> Set<Seq<char>> {
        self.types_to_expect@
    }

    /// Setup, cache and awaited types are well formed.
    pub closed spec fn wf(&self) -> bool {
        self.config.wf() && self.state.wf() && self.types_to_expect.wf()
    }

    /// Whether an initial request fetches on demand: it does where it
    /// subscribes to something by name.
    pub fn is_initial_request_on_demand(r: &DeltaDiscoveryRequest) -> (b: bool)
        ensures
            b == (r.resource_names_subscribe@.len() != 0),
    {
        r.resource_names_subscribe.len() != 0
    }

    /// A client for `config` that knows nothing yet and holds `block_ready`
    /// until every watched type has been acknowledged once.
    pub fn new(config: Config, block_ready: tokio::sync::watch::Sender<()>) -> (r: Self)
        requires
            config.wf(),
        ensures
            r.wf(),
            r.spec_config() == config,
            r.state().known() == Set::<(Seq<char>, Seq<char>)>::empty(),
            r.state().pending() == Map::<
                (Seq<char>, Seq<char>),
                tokio::sync::oneshot::Sender<()>,
            >::empty(),
            !r.is_ready(),
            r.connection_id() == 0,
            r.expected() == expected_types(config.initial_requests()),
    {
        let mut types_to_expect: KeySet<String> = KeySet::new();
        let mut i: usize = 0;
        let ghost reqs = config.initial_requests();
        while i < config.request_count()
            invariant
                i <= reqs.len(),
                config.wf(),
                reqs == config.initial_requests(),
                types_to_expect.wf(),
                types_to_expect@ == expected_types(reqs.take(i as int)),
            decreases reqs.len() - i,
        {
            let e = config.request_at(i);
            let ghost before = types_to_expect@;
            if !Self::is_initial_request_on_demand(e) {
                types_to_expect.insert(e.type_url.clone());
            }
            proof {
                let a = reqs.take(i as int);
                let b = reqs.take(i + 1);
                assert forall|t: Seq<char>| expected_types(b).contains(t) <==> (expected_types(
                    a,
                ).contains(t) || (reqs[i as int].type_url@ == t
                    && reqs[i as int].resource_names_subscribe@.len() == 0)) by {
                    if expected_types(a).contains(t) {
                        let j = choose|j: int|
                            0 <= j < a.len() && (#[trigger] a[j]).type_url@ == t
                                && a[j].resource_names_subscribe@.len() == 0;
                        assert(b[j] == a[j]);
                    }
                    if reqs[i as int].type_url@ == t && reqs[i as int].resource_names_subscribe@.len()
                        == 0 {
                        assert(b[i as int] == reqs[i as int]);
                    }
                    if expected_types(b).contains(t) {
                        let j = choose|j: int|
                            0 <= j < b.len() && (#[trigger] b[j]).type_url@ == t
                                && b[j].resource_names_subscribe@.len() == 0;
                        if j < i {
                            assert(a[j] == b[j]);
                        }
                    }
                }
                assert(types_to_expect@ =~= expected_types(b));
            }
            i += 1;
        }
        proof {
            assert(reqs.take(i as int) =~= reqs);
        }
        AdsClient {
            config,
            state: State::new(),
            block_ready: Some(block_ready),
            connection_id: 0,
            types_to_expect,
        }
    }

    /// The setup.
    pub fn config(&self) -> (r: &Config)
        ensures
            *r == self.spec_config(),
    {
        &self.config
    }

    /// What is known of one resource: whether it is in the cache, and whether
    /// someone waits for it.
    pub fn lookup(&self, type_url: &str, name: &str) -> (r: (bool, bool))
        ensures
            r.0 == self.state().known().contains((type_url@, name@)),
            r.1 == self.state().pending_keys().contains((type_url@, name@)),
    {
        (self.state.is_known(type_url, name), self.state.is_pending(type_url, name))
    }

    /// Whether the readiness signal has been given.
    pub fn ready(&self) -> (r: bool)
        ensures
            r == self.is_ready(),
    {
        self.block_ready.is_none()
    }

    /// Counts one more connection, and returns its number. The count wraps
    /// around after the last number that fits.
    pub fn begin_connection(&mut self) -> (id: u32)
        ensures
            id == final(self).connection_id(),
            id == if old(self).connection_id() == u32::MAX {
                0
            } else {
                old(self).connection_id() + 1
            },
            final(self).spec_config() == old(self).spec_config(),
            final(self).state() == old(self).state(),
            final(self).is_ready() == old(self).is_ready(),
            final(self).expected() == old(self).expected(),
            old(self).wf() ==> final(self).wf(),
    {
        self.connection_id = if self.connection_id == u32::MAX {
            0
        } else {
            self.connection_id + 1
        };
        self.connection_id
    }

    /// What to do after a connection that ended in `outcome`, with
    /// `backoff_ms` carried from the round before: connection and transport
    /// errors and unexpected statuses double the backoff up to the cap, every
    /// other ending resets it.
    pub fn run_loop(outcome: &ConnectionOutcome, backoff_ms: u64) -> (r: Retry)
        ensures
            r == retry_after(*outcome, backoff_ms),
    {
        match outcome {
            ConnectionOutcome::Connection => Retry {
                backoff_ms: escalate(backoff_ms),
                sleep: true,
                reason: ConnectionTerminationReason::ConnectionError,
            },
            ConnectionOutcome::Transport => Retry {
                backoff_ms: escalate(backoff_ms),
                sleep: true,
                reason: ConnectionTerminationReason::ConnectionError,
            },
            ConnectionOutcome::GrpcStatus { code, message } => {
                let normal = match code {
                    Code::Cancelled => true,
                    Code::DeadlineExceeded => true,
                    Code::Unavailable => contains_text(message.as_str(), "transport is closing")
                        || contains_text(message.as_str(), "received prior goaway"),
                    _ => false,
                };
                if normal {
                    Retry {
                        backoff_ms: INITIAL_BACKOFF_MS,
                        sleep: true,
                        reason: ConnectionTerminationReason::Reconnect,
                    }
                } else {
                    Retry {
                        backoff_ms: escalate(backoff_ms),
                        sleep: true,
                        reason: ConnectionTerminationReason::Error,
                    }
                }
            },
            ConnectionOutcome::Other => Retry {
                backoff_ms: INITIAL_BACKOFF_MS,
                sleep: false,
                reason: ConnectionTerminationReason::Error,
            },
            ConnectionOutcome::Complete => Retry {
                backoff_ms: INITIAL_BACKOFF_MS,
                sleep: false,
                reason: ConnectionTerminationReason::Complete,
            },
        }
    }

    /// The requests that open a connection: the setup's initial requests, in
    /// order, each unchanged but for saying which resources of its type the
    /// client holds, all in the empty version.
    pub fn initial_requests(&self) -> (r: Vec<DeltaDiscoveryRequest>)
        requires
            self.wf(),
        ensures
            r@.len() == self.spec_config().initial_requests().len(),
            forall|i: int|
                0 <= i < r@.len() ==> (#[trigger] r@[i]).same_but_versions(
                    self.spec_config().initial_requests()[i],
                ),
            forall|i: int|
                0 <= i < r@.len() ==> (#[trigger] r@[i]).is_subscription(
                    self.spec_config().initial_requests()[i].type_url@,
                    node_view(self.spec_config().initial_requests()[i].node),
                    texts(self.spec_config().initial_requests()[i].resource_names_subscribe@),
                    texts(self.spec_config().initial_requests()[i].resource_names_unsubscribe@),
                    self.state().known_names(self.spec_config().initial_requests()[i].type_url@),
                ),
    {
        let mut out: Vec<DeltaDiscoveryRequest> = Vec::new();
        let ghost reqs = self.config.initial_requests();
        let mut i: usize = 0;
        while i < self.config.request_count()
            invariant
                i <= reqs.len(),
                self.wf(),
                reqs == self.config.initial_requests(),
                out@.len() == i,
                forall|j: int| 0 <= j < i ==> (#[trigger] out@[j]).same_but_versions(reqs[j]),
                forall|j: int|
                    0 <= j < i ==> (#[trigger] out@[j]).is_subscription(
                        reqs[j].type_url@,
                        node_view(reqs[j].node),
                        texts(reqs[j].resource_names_subscribe@),
                        texts(reqs[j].resource_names_unsubscribe@),
                        self.state.known_names(reqs[j].type_url@),
                    ),
            decreases reqs.len() - i,
        {
            let e = self.config.request_at(i);
            let req = DeltaDiscoveryRequest {
                type_url: e.type_url.clone(),
                node: match &e.node {
                    Some(n) => Some(n.copy()),
                    None => None,
                },
                resource_names_subscribe: clone_strings(&e.resource_names_subscribe),
                resource_names_unsubscribe: clone_strings(&e.resource_names_unsubscribe),
                initial_resource_versions: self.state.versions_of(e.type_url.as_str()),
                response_nonce: String::new(),
                error_detail: None,
            };
            out.push(req);
            i += 1;
        }
        out
    }

    /// Takes one response and returns the answer to send: an acknowledgement,
    /// or a negative acknowledgement that lists what was rejected.
    ///
    /// A response of a type without handler changes nothing and is
    /// acknowledged. For any other, the handler is called, and the cache and
    /// the waiters are brought up to date whatever the handler says. The
    /// answer repeats the response's type and nonce, and carries an error
    /// exactly if something was rejected; a resource without payload always
    /// is.
    pub fn handle_stream_event(&mut self, response: DeltaDiscoveryResponse) -> (r: (
        DeltaDiscoveryRequest,
        XdsSignal,
    ))
        requires
            old(self).wf(),
        ensures
            final(self).wf(),
            final(self).spec_config() == old(self).spec_config(),
            final(self).is_ready() == old(self).is_ready(),
            final(self).expected() == old(self).expected(),
            final(self).connection_id() == old(self).connection_id(),
            r.0.type_url@ == response.type_url@,
            r.0.response_nonce@ == response.nonce@,
            (r.1 == XdsSignal::Ack) <==> r.0.error_detail.is_none(),
            exists|rejected: Seq<(Seq<char>, Seq<char>)>|
                {
                    &&& #[trigger] is_answer(r.0, response.type_url@, response.nonce@, rejected)
                    &&& r.1 == if rejected.len() == 0 {
                        XdsSignal::Ack
                    } else {
                        XdsSignal::Nack
                    }
                    &&& if old(self).spec_config().handled().contains(response.type_url@) {
                        rejects_missing(response.resources@, rejected)
                    } else {
                        rejected.len() == 0
                    }
                },
            if old(self).spec_config().handled().contains(response.type_url@) {
                &&& final(self).state().known() == known_after(
                    old(self).state().known(),
                    response.type_url@,
                    resource_names(response.resources@),
                    texts(response.removed_resources@),
                )
                &&& final(self).state().pending_keys() == pending_after(
                    old(self).state().pending_keys(),
                    response.type_url@,
                    resource_names(response.resources@),
                    texts(response.removed_resources@),
                )
                &&& final(self).state().pending() == old(self).state().pending().restrict(
                    final(self).state().pending_keys(),
                )
            } else {
                final(self).state() == old(self).state()
            },
    {
        let type_url = response.type_url.clone();
        let nonce = response.nonce.clone();
        let key = new(type_url.as_str());
        let handler_response: Result<(), Vec<crate::xds::client::RejectedConfig>> =
            match self.config.handler_of(&key) {
            Some(h) => h.handle(&mut self.state, response),
            None => Ok(()),
        };
        let ghost rejected = rejected_in(handler_response);
        let r = acknowledge(type_url, nonce, handler_response);
        proof {
            assert(is_answer(r.0, response.type_url@, response.nonce@, rejected));
        }
        r
    }

    /// Takes one response off the stream: answers it as
    /// [`Self::handle_stream_event`] does, and, where the answer is an
    /// acknowledgement, stops waiting for the response's type. When the last
    /// awaited type has been acknowledged, the readiness signal is given.
    pub fn receive(&mut self, msg: DeltaDiscoveryResponse) -> (r: (DeltaDiscoveryRequest, XdsSignal))
        requires
            old(self).wf(),
        ensures
            final(self).wf(),
            final(self).spec_config() == old(self).spec_config(),
            final(self).connection_id() == old(self).connection_id(),
            r.0.type_url@ == msg.type_url@,
            r.0.response_nonce@ == msg.nonce@,
            (r.1 == XdsSignal::Ack) <==> r.0.error_detail.is_none(),
            exists|rejected: Seq<(Seq<char>, Seq<char>)>|
                {
                    &&& #[trigger] is_answer(r.0, msg.type_url@, msg.nonce@, rejected)
                    &&& r.1 == if rejected.len() == 0 {
                        XdsSignal::Ack
                    } else {
                        XdsSignal::Nack
                    }
                    &&& if old(self).spec_config().handled().contains(msg.type_url@) {
                        rejects_missing(msg.resources@, rejected)
                    } else {
                        rejected.len() == 0
                    }
                },
            final(self).expected() == if r.1 == XdsSignal::Ack {
                old(self).expected().remove(msg.type_url@)
            } else {
                old(self).expected()
            },
            final(self).is_ready() == (old(self).is_ready() || (r.1 == XdsSignal::Ack
                && old(self).expected() != Set::<Seq<char>>::empty() && final(self).expected()
                == Set::<Seq<char>>::empty())),
            if old(self).spec_config().handled().contains(msg.type_url@) {
                &&& final(self).state().known() == known_after(
                    old(self).state().known(),
                    msg.type_url@,
                    resource_names(msg.resources@),
                    texts(msg.removed_resources@),
                )
                &&& final(self).state().pending_keys() == pending_after(
                    old(self).state().pending_keys(),
                    msg.type_url@,
                    resource_names(msg.resources@),
                    texts(msg.removed_resources@),
                )
                &&& final(self).state().pending() == old(self).state().pending().restrict(
                    final(self).state().pending_keys(),
                )
            } else {
                final(self).state() == old(self).state()
            },
    {
        let received_type = if !self.types_to_expect.is_empty() {
            Some(msg.type_url.clone())
        } else {
            None
        };
        let ghost expected0 = self.types_to_expect@;
        let r = self.handle_stream_event(msg);
        if let XdsSignal::Ack = r.1 {
            if let Some(received_type) = received_type {
                self.types_to_expect.remove(&received_type);
                if self.types_to_expect.is_empty() {
                    self.block_ready = None;
                }
            } else {
                proof {
                    assert(expected0.remove(msg.type_url@) =~= expected0);
                }
            }
        }
        r
    }

    /// Takes one demand: notes who waits for the resource, notes the
    /// resource as known so that it is asked for again after a reconnection,
    /// and returns the request that subscribes to it by name. No demand, no
    /// request.
    pub fn handle_demand_event(
        &mut self,
        demand_event: Option<(tokio::sync::oneshot::Sender<()>, ResourceKey)>,
    ) -> (r: Option<DeltaDiscoveryRequest>)
        requires
            old(self).wf(),
        ensures
            final(self).wf(),
            final(self).spec_config() == old(self).spec_config(),
            final(self).is_ready() == old(self).is_ready(),
            final(self).expected() == old(self).expected(),
            final(self).connection_id() == old(self).connection_id(),
            match demand_event {
                None => r.is_none() && final(self).state() == old(self).state(),
                Some((tx, key)) => {
                    &&& final(self).state().known() == old(self).state().known().insert(key.id())
                    &&& final(self).state().pending() == old(self).state().pending().insert(key.id(), tx)
                    &&& r matches Some(req)
                    &&& req.is_subscription(
                        key.id().0,
                        None,
                        seq![key.id().1],
                        Seq::empty(),
                        Set::empty(),
                    )
                },
            },
    {
        let (tx, demand_event) = match demand_event {
            Some(d) => d,
            None => {
                return None;
            },
        };
        let ResourceKey { type_url, name } = demand_event.duplicate();
        self.state.demand(demand_event, tx);
        let mut req = DeltaDiscoveryRequest::of_type(crate::strng::to_string(&type_url));
        req.resource_names_subscribe.push(crate::strng::to_string(&name));
        proof {
            assert(texts(req.resource_names_subscribe@) =~= seq![strng_chars(name)]);
            assert(texts(req.resource_names_unsubscribe@) =~= Seq::<Seq<char>>::empty());
            assert(req.initial_resource_versions@.dom() =~= Set::<Seq<char>>::empty());
        }
        Some(req)
    }
}

impl Config {
    /// Makes the client for this setup. It holds `block_ready` until every
    /// watched type has been acknowledged once.
    pub fn build(self, block_ready: tokio::sync::watch::Sender<()>) -> (r: AdsClient)
        requires
            self.wf(),
        ensures
            r.wf(),
            r.spec_config() == self,
            r.state().known() == Set::<(Seq<char>, Seq<char>)>::empty(),
            r.state().pending() == Map::<
                (Seq<char>, Seq<char>),
                tokio::sync::oneshot::Sender<()>,
            >::empty(),
            !r.is_ready(),
            r.connection_id() == 0,
            r.expected() == expected_types(self.initial_requests()),
    {
        AdsClient::new(self, block_ready)
    }
}

} // verus!
