//! The messages of the delta discovery protocol, as plain values.

use crate::assoc::{text_map, AssocList};
use crate::text::texts;
use vstd::prelude::*;

verus! {

/// A payload of a named type.
#[derive(Clone, Debug, PartialEq, Eq)]
pub struct Any {
    pub type_url: String,
    pub value: Vec<u8>,
}

/// A resource as the control plane sends it.
#[derive(Clone, Debug, PartialEq, Eq)]
pub struct Resource {
    pub name: String,
    pub resource: Option<Any>,
}

/// An error as the protocol reports it.
#[derive(Clone, Debug, PartialEq, Eq)]
pub struct Status {
    pub code: i32,
    pub message: String,
    pub details: Vec<Any>,
}

/// The identity under which the client speaks.
#[derive(Debug)]
pub struct Node {
    pub id: String,
    /// String-valued metadata fields, by name.
    pub metadata: Option<AssocList<String, String>>,
}

/// What the client sends: a subscription, or the answer to a response.
#[derive(Debug)]
pub struct DeltaDiscoveryRequest {
    pub type_url: String,
    pub node: Option<Node>,
    pub resource_names_subscribe: Vec<String>,
    pub resource_names_unsubscribe: Vec<String>,
    /// Resource name to version, for what the client holds on reconnect.
    pub initial_resource_versions: AssocList<String, String>,
    pub response_nonce: String,
    pub error_detail: Option<Status>,
}

/// What the control plane sends: changed and removed resources of one type.
#[derive(Clone, Debug, PartialEq, Eq)]
pub struct DeltaDiscoveryResponse {
    pub type_url: String,
    pub nonce: String,
    pub resources: Vec<Resource>,
    pub removed_resources: Vec<String>,
}

/// The names of the resources of a response, in order.
pub open spec fn resource_names(resources: Seq<Resource>) -> Seq<Seq<char>> {
    Seq::new(resources.len(), |i: int| resources[i].name@)
}

impl Node {
    /// The metadata holds no name twice.
    pub open spec fn wf(&self) -> bool {
        self.metadata matches Some(m) ==> m.wf()
    }

    /// The node read by its characters: its identifier, and its metadata.
    pub open spec fn view(&self) -> (Seq<char>, Option<Map<Seq<char>, Seq<char>>>) {
        (
            self.id@,
            match self.metadata {
                Some(m) => Some(text_map(m@)),
                None => None,
            },
        )
    }

    /// A copy of the node.
    pub fn copy(&self) -> (r: Node)
        requires
            self.wf(),
        ensures
            r.wf(),
            r@ == self@,
    {
        Node {
            id: self.id.clone(),
            metadata: match &self.metadata {
                Some(m) => Some(m.copy()),
                None => None,
            },
        }
    }
}

/// The node of a request, read by its characters.
pub open spec fn node_view(node: Option<Node>) -> Option<(Seq<char>, Option<Map<Seq<char>, Seq<char>>>)> {
    match node {
        Some(n) => Some(n@),
        None => None,
    }
}

impl DeltaDiscoveryRequest {
    /// Neither the versions nor the node's metadata hold a name twice.
    pub open spec fn wf(&self) -> bool {
        &&& self.initial_resource_versions.wf()
        &&& self.node matches Some(n) ==> n.wf()
    }

    /// The request answers no response: it carries neither a nonce nor an
    /// error.
    pub open spec fn is_plain(&self) -> bool {
        self.response_nonce@ == Seq::<char>::empty() && self.error_detail.is_none()
    }

    /// `self` is `other` but for the resource versions that it reports:
    /// type, identity, subscriptions, nonce and error are the same.
    pub open spec fn same_but_versions(&self, other: DeltaDiscoveryRequest) -> bool {
        &&& self.type_url@ == other.type_url@
        &&& node_view(self.node) == node_view(other.node)
        &&& texts(self.resource_names_subscribe@) == texts(other.resource_names_subscribe@)
        &&& texts(self.resource_names_unsubscribe@) == texts(other.resource_names_unsubscribe@)
        &&& self.response_nonce@ == other.response_nonce@
        &&& self.error_detail.is_none() && other.error_detail.is_none()
    }

    /// `self` asks for the type `type_url` under the identity `node`,
    /// subscribing to `subscribe` and unsubscribing from `unsubscribe`, and
    /// says that it holds `held`, each in the empty version. It answers no
    /// response.
    pub open spec fn is_subscription(
        &self,
        type_url: Seq<char>,
        node: Option<(Seq<char>, Option<Map<Seq<char>, Seq<char>>>)>,
        subscribe: Seq<Seq<char>>,
        unsubscribe: Seq<Seq<char>>,
        held: Set<Seq<char>>,
    ) -> bool {
        &&& self.wf()
        &&& self.type_url@ == type_url
        &&& node_view(self.node) == node
        &&& texts(self.resource_names_subscribe@) == subscribe
        &&& texts(self.resource_names_unsubscribe@) == unsubscribe
        &&& self.initial_resource_versions@.dom() == held
        &&& forall|n: Seq<char>|
            held.contains(n) ==> (#[trigger] self.initial_resource_versions@[n])@ == Seq::<char>::empty()
        &&& self.response_nonce@ == Seq::<char>::empty()
        &&& self.error_detail.is_none()
    }

    /// A request that holds a type and nothing else.
    pub fn of_type(type_url: String) -> (r: DeltaDiscoveryRequest)
        ensures
            r.type_url == type_url,
            r.is_bare(),
    {
        DeltaDiscoveryRequest {
            type_url,
            node: None,
            resource_names_subscribe: Vec::new(),
            resource_names_unsubscribe: Vec::new(),
            initial_resource_versions: AssocList::new(),
            response_nonce: String::new(),
            error_detail: None,
        }
    }

    /// Every field but the type is empty.
    pub open spec fn is_bare(&self) -> bool {
        &&& self.node.is_none()
        &&& self.resource_names_subscribe@.len() == 0
        &&& self.resource_names_unsubscribe@.len() == 0
        &&& self.initial_resource_versions.wf()
        &&& self.initial_resource_versions@ == Map::<Seq<char>, String>::empty()
        &&& self.response_nonce@ == Seq::<char>::empty()
        &&& self.error_detail.is_none()
    }
}

} // verus!
