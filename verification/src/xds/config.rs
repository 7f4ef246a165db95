//! How a client is set up: where it connects, who it says it is, and which
//! types it watches.

use crate::assoc::{text_map, AssocList, Key};
use crate::strng::{strng_chars, Strng};
use crate::xds::client::{AnyHandler, Erase, Handler, HandlerWrapper, ProtoMessage, RawHandler};
use crate::xds::proto::{DeltaDiscoveryRequest, Node};
use vstd::prelude::*;

verus! {

/// The address used where the environment names none.
pub const DEFAULT_IP: &'static str = "1.1.1.1";

/// What the process environment says of the instance; `None` where a
/// variable is not set.
#[derive(Clone, Debug, Default)]
pub struct Environment {
    /// `INSTANCE_IP`
    pub instance_ip: Option<String>,
    /// `POD_NAME`
    pub pod_name: Option<String>,
    /// `POD_NAMESPACE`
    pub pod_namespace: Option<String>,
    /// `NODE_NAME`
    pub node_name: Option<String>,
}

/// The identifier of a node.
pub open spec fn node_id(ip: Seq<char>, pod_name: Seq<char>, ns: Seq<char>) -> Seq<char> {
    "agentgateway~"@ + ip + "~"@ + pod_name + "."@ + ns + "~"@ + ns + ".svc.cluster.local"@
}

/// The role of a node: its namespace and its gateway.
pub open spec fn role_of(ns: Seq<char>, gateway: Seq<char>) -> Seq<char> {
    ns + "~"@ + gateway
}

/// The metadata that every node carries, before the caller's own.
pub open spec fn base_metadata(
    pod_name: Seq<char>,
    ns: Seq<char>,
    ip: Seq<char>,
    node_name: Seq<char>,
    gateway: Seq<char>,
) -> Map<Seq<char>, Seq<char>> {
    Map::<Seq<char>, Seq<char>>::empty().insert("NAME"@, pod_name).insert("NAMESPACE"@, ns).insert(
        "INSTANCE_IPS"@,
        ip,
    ).insert("NODE_NAME"@, node_name).insert("role"@, role_of(ns, gateway))
}

/// The text that `m` holds for `key`, or the empty text.
pub open spec fn text_or_empty(m: Map<Seq<char>, Seq<char>>, key: Seq<char>) -> Seq<char> {
    if m.dom().contains(key) {
        m[key]
    } else {
        Seq::empty()
    }
}

/// The setup of a client.
pub struct Config {
    pub(crate) address: String,
    pub(crate) proxy_metadata: AssocList<String, String>,
    pub(crate) handlers: AssocList<Strng, Box<dyn RawHandler>>,
    pub(crate) initial_requests: Vec<DeltaDiscoveryRequest>,
    pub(crate) on_demand: bool,
    pub(crate) instance_ip: String,
    pub(crate) pod_name: String,
    pub(crate) pod_namespace: String,
    pub(crate) node_name: String,
}

/// The string, or `default` where there is none.
fn or_default(value: Option<String>, default: &str) -> (r: String)
    ensures
        r@ == match value {
            Some(s) => s@,
            None => default@,
        },
{
    match value {
        Some(s) => s,
        None => default.to_owned(),
    }
}

impl Config {
    /// The collections hold no key twice, and every initial request is well
    /// formed and answers no response.
    pub closed spec fn wf(&self) -> bool {
        &&& self.proxy_metadata.wf()
        &&& self.handlers.wf()
        &&& forall|i: int|
            0 <= i < self.initial_requests@.len() ==> (#[trigger] self.initial_requests@[i]).wf()
                && self.initial_requests@[i].is_plain()
    }

    /// In a well-formed setup every initial request is well formed and
    /// answers no response.
    pub proof fn lemma_initial_requests(&self)
        requires
            self.wf(),
        ensures
            forall|i: int|
                0 <= i < self.initial_requests().len() ==> (#[trigger] self.initial_requests()[i]).wf()
                    && self.initial_requests()[i].is_plain(),
    {
    }

    /// Where the control plane is reached.
    pub closed spec fn address(&self) -> Seq<char> {
        self.address@
    }

    /// Whether resources are fetched on demand.
    pub closed spec fn is_on_demand(&self) -> bool {
        self.on_demand
    }

    /// The caller's own metadata.
    pub closed spec fn proxy_metadata(&self) -> Map<Seq<char>, Seq<char>> {
        text_map(self.proxy_metadata@)
    }

    /// The handler of each type that has one.
    pub closed spec fn handlers(&self) -> Map<Seq<char>, Box<dyn RawHandler>> {
        self.handlers@
    }

    /// The types that have a handler.
    pub open spec fn handled(&self) -> Set<Seq<char>> {
        self.handlers().dom()
    }

    /// The subscription requests sent on every connection, in order.
    pub closed spec fn initial_requests(&self) -> Seq<DeltaDiscoveryRequest> {
        self.initial_requests@
    }

    /// The instance's address, pod name, pod namespace and node name.
    pub closed spec fn instance(&self) -> (Seq<char>, Seq<char>, Seq<char>, Seq<char>) {
        (self.instance_ip@, self.pod_name@, self.pod_namespace@, self.node_name@)
    }

    /// The identity under which a client with this setup speaks.
    pub open spec fn spec_node(&self) -> (Seq<char>, Option<Map<Seq<char>, Seq<char>>>) {
        let (ip, pod_name, ns, node_name) = self.instance();
        (
            node_id(ip, pod_name, ns),
            Some(
                base_metadata(
                    pod_name,
                    ns,
                    ip,
                    node_name,
                    text_or_empty(self.proxy_metadata(), "GATEWAY_NAME"@),
                ).union_prefer_right(self.proxy_metadata()),
            ),
        )
    }

    /// Where the control plane is reached.
    pub fn address_text(&self) -> (r: &str)
        ensures
            r@ == self.address(),
    {
        self.address.as_str()
    }

    /// Whether resources are fetched on demand.
    pub fn fetches_on_demand(&self) -> (r: bool)
        ensures
            r == self.is_on_demand(),
    {
        self.on_demand
    }

    /// How many initial requests there are.
    pub(crate) fn request_count(&self) -> (r: usize)
        ensures
            r == self.initial_requests().len(),
    {
        self.initial_requests.len()
    }

    /// The initial request at `i`.
    pub(crate) fn request_at(&self, i: usize) -> (r: &DeltaDiscoveryRequest)
        requires
            self.wf(),
            i < self.initial_requests().len(),
        ensures
            *r == self.initial_requests()[i as int],
            r.wf(),
            r.is_plain(),
    {
        &self.initial_requests[i]
    }

    /// The handler of `type_url`, if it has one.
    pub(crate) fn handler_of(&self, type_url: &Strng) -> (r: Option<&Box<dyn RawHandler>>)
        requires
            self.wf(),
        ensures
            r.is_some() == self.handled().contains(strng_chars(*type_url)),
    {
        self.handlers.get(type_url)
    }

    /// A setup for the control plane at `address`, for the gateway
    /// `gateway_name` in `namespace`, on the instance that `env` describes.
    /// A missing instance address becomes 1.1.1.1, any other missing value the
    /// empty string. Nothing is watched yet, and nothing is fetched on demand.
    pub fn new(address: String, gateway_name: String, namespace: String, env: Environment) -> (r: Self)
        ensures
            r.wf(),
            r.address() == address@,
            !r.is_on_demand(),
            r.proxy_metadata() == Map::<Seq<char>, Seq<char>>::empty().insert(
                "GATEWAY_NAME"@,
                gateway_name@,
            ).insert("NAMESPACE"@, namespace@),
            r.handled() == Set::<Seq<char>>::empty(),
            r.initial_requests().len() == 0,
            r.instance() == (
                match env.instance_ip {
                    Some(s) => s@,
                    None => "1.1.1.1"@,
                },
                match env.pod_name {
                    Some(s) => s@,
                    None => Seq::<char>::empty(),
                },
                match env.pod_namespace {
                    Some(s) => s@,
                    None => Seq::<char>::empty(),
                },
                match env.node_name {
                    Some(s) => s@,
                    None => Seq::<char>::empty(),
                },
            ),
    {
        let mut proxy_metadata: AssocList<String, String> = AssocList::new();
        proxy_metadata.insert("GATEWAY_NAME".to_owned(), gateway_name);
        proxy_metadata.insert("NAMESPACE".to_owned(), namespace);
        let Environment { instance_ip, pod_name, pod_namespace, node_name } = env;
        proof {
            reveal_strlit("");
            assert(""@ =~= Seq::<char>::empty());
        }
        let r = Self {
            address,
            handlers: AssocList::new(),
            initial_requests: Vec::new(),
            on_demand: false,
            proxy_metadata,
            instance_ip: or_default(instance_ip, DEFAULT_IP),
            pod_name: or_default(pod_name, ""),
            pod_namespace: or_default(pod_namespace, ""),
            node_name: or_default(node_name, ""),
        };
        proof {
            assert(r.proxy_metadata() =~= Map::<Seq<char>, Seq<char>>::empty().insert(
                "GATEWAY_NAME"@,
                gateway_name@,
            ).insert("NAMESPACE"@, namespace@));
        }
        r
    }

    /// Turns fetching on demand on or off for the types watched from here on.
    pub fn with_on_demand(self, on_demand: bool) -> (r: Self)
        requires
            self.wf(),
        ensures
            r.wf(),
            r.is_on_demand() == on_demand,
            r.address() == self.address(),
            r.proxy_metadata() == self.proxy_metadata(),
            r.handled() == self.handled(),
            r.initial_requests() == self.initial_requests(),
            r.instance() == self.instance(),
    {
        let mut r = self;
        r.on_demand = on_demand;
        r
    }

    /// The identity under which a client with this setup speaks: the
    /// identifier made of address, pod and namespace, and as metadata the
    /// instance's own fields overlaid with the caller's.
    pub fn node(&self) -> (r: Node)
        requires
            self.wf(),
        ensures
            r.wf(),
            r@ == self.spec_node(),
    {
        let gw_key = "GATEWAY_NAME".to_owned();
        let gw_name: String = match self.proxy_metadata.get(&gw_key) {
            Some(g) => g.clone(),
            None => String::new(),
        };
        let ghost gw = text_or_empty(self.proxy_metadata(), "GATEWAY_NAME"@);
        assert(gw_name@ == gw);
        let mut role = self.pod_namespace.clone();
        role.append("~");
        role.append(gw_name.as_str());
        let mut metadata: AssocList<String, String> = AssocList::new();
        metadata.insert("NAME".to_owned(), self.pod_name.clone());
        metadata.insert("NAMESPACE".to_owned(), self.pod_namespace.clone());
        metadata.insert("INSTANCE_IPS".to_owned(), self.instance_ip.clone());
        metadata.insert("NODE_NAME".to_owned(), self.node_name.clone());
        metadata.insert("role".to_owned(), role);
        let ghost base = base_metadata(
            self.pod_name@,
            self.pod_namespace@,
            self.instance_ip@,
            self.node_name@,
            gw,
        );
        let ghost pids = self.proxy_metadata.ids();
        let ghost pents = self.proxy_metadata.entries();
        proof {
            assert(text_map(metadata@) =~= base);
            assert(pids.take(0) =~= Seq::<Seq<char>>::empty());
            assert(base.union_prefer_right(
                Map::new(
                    |id: Seq<char>| pids.take(0).contains(id),
                    |id: Seq<char>| pents[pids.index_of(id)].1@,
                ),
            ) =~= base);
        }
        let mut i: usize = 0;
        while i < self.proxy_metadata.len()
            invariant
                i <= pids.len(),
                self.proxy_metadata.wf(),
                pids == self.proxy_metadata.ids(),
                pents == self.proxy_metadata.entries(),
                metadata.wf(),
                text_map(metadata@) == base.union_prefer_right(
                    Map::new(
                        |id: Seq<char>| pids.take(i as int).contains(id),
                        |id: Seq<char>| pents[pids.index_of(id)].1@,
                    ),
                ),
            decreases pids.len() - i,
        {
            let key = self.proxy_metadata.key_at(i).clone();
            let value = self.proxy_metadata.value_at(i).clone();
            let ghost before = metadata@;
            let ghost a = Map::new(
                |id: Seq<char>| pids.take(i as int).contains(id),
                |id: Seq<char>| pents[pids.index_of(id)].1@,
            );
            let ghost b = Map::new(
                |id: Seq<char>| pids.take(i + 1).contains(id),
                |id: Seq<char>| pents[pids.index_of(id)].1@,
            );
            metadata.insert(key, value);
            proof {
                self.proxy_metadata.lemma_entry(i as int);
                assert(pids.take(i + 1) =~= pids.take(i as int).push(pids[i as int]));
                assert forall|id: Seq<char>| pids.take(i + 1).contains(id) <==> (pids.take(
                    i as int,
                ).contains(id) || id == pids[i as int]) by {
                    if pids.take(i as int).contains(id) {
                        let j = pids.take(i as int).index_of(id);
                        assert(pids.take(i + 1)[j] == id);
                    }
                    if id == pids[i as int] {
                        assert(pids.take(i + 1)[i as int] == id);
                    }
                }
                let c = a.insert(pids[i as int], pents[i as int].1@);
                assert forall|id: Seq<char>| b.dom().contains(id) <==> c.dom().contains(id) by {
                    assert(b.dom().contains(id) <==> pids.take(i + 1).contains(id));
                    assert(a.dom().contains(id) <==> pids.take(i as int).contains(id));
                }
                assert forall|id: Seq<char>| b.dom().contains(id) implies #[trigger] b[id] == c[id] by {
                    if id == pids[i as int] {
                        assert(pids.index_of(id) == i);
                    }
                }
                assert(b =~= c);
                assert(text_map(metadata@) =~= text_map(before).insert(key@, value@));
                assert(text_map(metadata@) =~= base.union_prefer_right(b));
            }
            i += 1;
        }
        proof {
            assert(pids.take(i as int) =~= pids);
            let whole = Map::new(
                |id: Seq<char>| pids.contains(id),
                |id: Seq<char>| pents[pids.index_of(id)].1@,
            );
            assert(whole =~= text_map(self.proxy_metadata@));
            reveal_strlit("~");
        }
        let mut id = "agentgateway~".to_owned();
        id.append(self.instance_ip.as_str());
        id.append("~");
        id.append(self.pod_name.as_str());
        id.append(".");
        id.append(self.pod_namespace.as_str());
        id.append("~");
        id.append(self.pod_namespace.as_str());
        id.append(".svc.cluster.local");
        proof {
            assert(id@ =~= node_id(self.instance_ip@, self.pod_name@, self.pod_namespace@));
            assert(role@ =~= role_of(self.pod_namespace@, gw));
        }
        Node { id, metadata: Some(metadata) }
    }
}

/// What an initial request subscribes to and unsubscribes from: the
/// wildcard, both ways, where the type is fetched on demand, and nothing
/// where it is watched as a whole.
pub open spec fn wildcard(on_demand: bool) -> Seq<Seq<char>> {
    if on_demand {
        seq!["*"@]
    } else {
        Seq::empty()
    }
}

impl Config {
    /// `r` is this setup with one more initial request, for `type_url`,
    /// fetched on demand or not.
    pub open spec fn watches(&self, r: Config, type_url: Seq<char>, on_demand: bool) -> bool {
        &&& r.wf()
        &&& r.address() == self.address()
        &&& r.is_on_demand() == self.is_on_demand()
        &&& r.proxy_metadata() == self.proxy_metadata()
        &&& r.instance() == self.instance()
        &&& r.initial_requests().len() == self.initial_requests().len() + 1
        &&& r.initial_requests().drop_last() == self.initial_requests()
        &&& r.initial_requests().last().is_subscription(
            type_url,
            Some(self.spec_node()),
            wildcard(on_demand),
            wildcard(on_demand),
            Set::empty(),
        )
    }

    /// The request that subscribes to `request_type` on every connection. In
    /// on-demand mode, unless the type opts out, it subscribes to the
    /// wildcard and unsubscribes from it in one go, which stands for "nothing
    /// yet"; else it names nothing, which stands for "everything".
    pub fn construct_initial_request(&self, request_type: Strng, no_on_demand: bool) -> (r:
        DeltaDiscoveryRequest)
        requires
            self.wf(),
        ensures
            r.is_subscription(
                strng_chars(request_type),
                Some(self.spec_node()),
                wildcard(!no_on_demand && self.is_on_demand()),
                wildcard(!no_on_demand && self.is_on_demand()),
                Set::empty(),
            ),
    {
        let node = self.node();
        let mut req = DeltaDiscoveryRequest::of_type(crate::strng::to_string(&request_type));
        req.node = Some(node);
        if (!no_on_demand) && self.on_demand {
            req.resource_names_subscribe.push("*".to_owned());
            req.resource_names_unsubscribe.push("*".to_owned());
            proof {
                assert(crate::text::texts(req.resource_names_subscribe@) =~= seq!["*"@]);
                assert(crate::text::texts(req.resource_names_unsubscribe@) =~= seq!["*"@]);
            }
        } else {
            proof {
                assert(crate::text::texts(req.resource_names_subscribe@)
                    =~= Seq::<Seq<char>>::empty());
                assert(crate::text::texts(req.resource_names_unsubscribe@)
                    =~= Seq::<Seq<char>>::empty());
            }
        }
        proof {
            assert(req.initial_resource_versions@.dom() =~= Set::<Seq<char>>::empty());
        }
        req
    }

    /// Adds the initial request for `type_url`.
    pub fn watch(self, type_url: Strng, no_on_demand: bool) -> (r: Config)
        requires
            self.wf(),
        ensures
            self.watches(r, strng_chars(type_url), !no_on_demand && self.is_on_demand()),
            r.handled() == self.handled(),
    {
        let req = self.construct_initial_request(type_url, no_on_demand);
        let mut r = self;
        let ghost before = r.initial_requests@;
        r.initial_requests.push(req);
        proof {
            assert(r.initial_requests@.drop_last() =~= before);
        }
        r
    }

    /// `r` is this setup with other handlers, and nothing else changed.
    pub open spec fn same_but_handlers(&self, r: Config) -> bool {
        &&& r.wf()
        &&& r.address() == self.address()
        &&& r.is_on_demand() == self.is_on_demand()
        &&& r.proxy_metadata() == self.proxy_metadata()
        &&& r.instance() == self.instance()
        &&& r.initial_requests() == self.initial_requests()
    }

    /// Registers `h` as the handler of `type_url`, in place of any earlier
    /// one.
    pub fn with_raw_handler(self, type_url: Strng, h: AnyHandler) -> (r: Config)
        requires
            self.wf(),
        ensures
            self.same_but_handlers(r),
            r.handlers() == self.handlers().insert(strng_chars(type_url), h.handler),
            r.handled() == self.handled().insert(strng_chars(type_url)),
    {
        let mut r = self;
        let ghost before = r.handlers;
        r.handlers.insert(type_url, h.handler);
        proof {
            assert(type_url.id() == strng_chars(type_url));
            assert(r.handlers@ == before@.insert(type_url.id(), h.handler));
            assert(r.handlers.dom() == before.dom().insert(strng_chars(type_url)));
        }
        r
    }

    /// Registers what `w` is with its payload type out of sight as the
    /// handler of `type_url`, in place of any earlier one.
    pub fn with_erased<W: Erase>(self, type_url: Strng, w: W) -> (r: Config)
        requires
            self.wf(),
        ensures
            self.same_but_handlers(r),
            r.handled() == self.handled().insert(strng_chars(type_url)),
            exists|h: AnyHandler| #[trigger]
                call_ensures(W::erase, (w,), h) && r.handlers() == self.handlers().insert(
                    strng_chars(type_url),
                    h.handler,
                ),
    {
        let h = W::erase(w);
        self.with_raw_handler(type_url, h)
    }

    /// Registers `f` as the handler of `type_url`, in place of any earlier
    /// one: what is stored for the type is the wrapper of `f`, with its
    /// payload type out of sight.
    pub fn with_handler<F: ProtoMessage + Send + Sync + 'static, H: Handler<F>>(self, type_url: Strng, f: H) -> (r:
        Config)
        requires
            self.wf(),
        ensures
            self.same_but_handlers(r),
            r.handled() == self.handled().insert(strng_chars(type_url)),
            exists|w: HandlerWrapper<F, H>, h: AnyHandler| #[trigger]
                call_ensures(<HandlerWrapper<F, H> as Erase>::erase, (w,), h) && w.h == f
                    && r.handlers() == self.handlers().insert(strng_chars(type_url), h.handler),
    {
        let w = HandlerWrapper::<F, H>::new(f);
        self.with_erased(type_url, w)
    }

    /// Registers `f` as the handler of `type_url` and adds the initial
    /// request for the type. The request fetches on demand exactly where the
    /// setup does and the handler, asked once, does not opt out.
    pub fn with_watched_handler<F: ProtoMessage + Send + Sync + 'static, H: Handler<F>>(
        self,
        type_url: Strng,
        f: H,
    ) -> (r: Config)
        requires
            self.wf(),
        ensures
            r.handled() == self.handled().insert(strng_chars(type_url)),
            exists|opts_out: bool| #[trigger]
                call_ensures(H::no_on_demand, (&f,), opts_out) && self.watches(
                    r,
                    strng_chars(type_url),
                    !opts_out && self.is_on_demand(),
                ),
    {
        let no_on_demand = f.no_on_demand();
        let ghost t = strng_chars(type_url);
        let with = self.with_handler(crate::strng::share(&type_url), f);
        let r = with.watch(type_url, no_on_demand);
        proof {
            assert(with.spec_node() == self.spec_node());
            assert(self.watches(r, t, !no_on_demand && self.is_on_demand()));
        }
        r
    }
}

} // verus!
