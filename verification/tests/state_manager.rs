use agentgateway::state_manager::{
    ConfigSource, EventKind, LocalClient, PreviousState, StateManager, XDSConfig, ADDRESS_TYPE,
    ADP_TYPE, AUTHORIZATION_TYPE, DEBOUNCE_MS,
};
use agentgateway::xds::client::{Handler, ProtoMessage, RejectedConfig, XdsUpdate};
use agentgateway::xds::config::Environment;
use agentgateway::xds::proto::DeltaDiscoveryResponse;
use agentgateway::xds::client::XdsSignal;
use tokio::sync::watch;

struct Bytes(Vec<u8>);

impl ProtoMessage for Bytes {
    fn decode(bytes: &[u8]) -> Result<Self, prost::DecodeError> {
        Ok(Bytes(bytes.to_vec()))
    }
}

struct Quiet;

impl Handler<Bytes> for Quiet {
    fn handle(&self, res: Vec<XdsUpdate<Bytes>>) -> Result<(), Vec<RejectedConfig>> {
        for u in res {
            if let XdsUpdate::Update(r) = u {
                assert!(r.resource.0.is_empty());
            }
        }
        Ok(())
    }
}

fn environment() -> Environment {
    Environment { instance_ip: None, pod_name: None, pod_namespace: None, node_name: None }
}

fn xds_config(address: Option<&str>) -> XDSConfig {
    XDSConfig {
        address: address.map(|s| s.to_string()),
        namespace: "ns".to_string(),
        gateway: "gw".to_string(),
        local_config: None,
    }
}

#[test]
fn type_names() {
    assert_eq!(ADDRESS_TYPE, "type.googleapis.com/agentgateway.dev.workload.Address");
    assert_eq!(AUTHORIZATION_TYPE, "type.googleapis.com/istio.security.Authorization");
    assert_eq!(ADP_TYPE, "type.googleapis.com/agentgateway.dev.resource.Resource");
    assert_eq!(DEBOUNCE_MS, 250);
}

#[test]
fn without_an_address_there_is_no_client() {
    let (tx, _rx) = watch::channel(());
    let m = StateManager::new::<Bytes, Bytes, Quiet, Quiet>(&xds_config(None), environment(), 7u8, Quiet, Quiet, tx);
    assert_eq!(*m.stores(), 7);
    let (stores, client) = m.into_parts();
    assert_eq!(stores, 7);
    assert!(client.is_none());
}

#[test]
fn with_an_address_both_types_are_watched() {
    let (tx, rx) = watch::channel(());
    let m = StateManager::new::<Bytes, Bytes, Quiet, Quiet>(
        &xds_config(Some("http://cp")),
        environment(),
        (),
        Quiet,
        Quiet,
        tx,
    );
    let (_, client) = m.into_parts();
    let mut client = client.unwrap();
    let reqs = client.initial_requests();
    assert_eq!(reqs.len(), 2);
    assert_eq!(reqs[0].type_url, ADDRESS_TYPE);
    assert_eq!(reqs[1].type_url, ADP_TYPE);
    for r in &reqs {
        assert!(r.resource_names_subscribe.is_empty());
        assert!(r.resource_names_unsubscribe.is_empty());
    }
    let empty = |t: &str| DeltaDiscoveryResponse {
        type_url: t.to_string(),
        nonce: "n".to_string(),
        resources: vec![],
        removed_resources: vec![],
    };
    assert_eq!(client.receive(empty(AUTHORIZATION_TYPE)).1, XdsSignal::Ack);
    assert!(!client.ready());
    client.receive(empty(ADDRESS_TYPE));
    assert!(!client.ready());
    client.receive(empty(ADP_TYPE));
    assert!(client.ready());
    assert!(rx.has_changed().is_err());
}

#[test]
fn only_creations_and_modifications_call_for_a_reload() {
    assert!(!LocalClient::<()>::should_reload(&vec![]));
    assert!(!LocalClient::<()>::should_reload(&vec![EventKind::Access, EventKind::Remove]));
    assert!(!LocalClient::<()>::should_reload(&vec![EventKind::Any, EventKind::Other]));
    assert!(LocalClient::<()>::should_reload(&vec![EventKind::Access, EventKind::Modify]));
    assert!(LocalClient::<()>::should_reload(&vec![EventKind::Create]));
}

#[test]
fn a_failed_reload_keeps_the_previous_state() {
    let prev = PreviousState { binds: 1u8, discovery: "a" };
    let next = PreviousState { binds: 2u8, discovery: "b" };
    let kept = LocalClient::<()>::after_reload::<u8, &str, String>(prev, Err("unreadable".to_string()));
    assert_eq!((kept.binds, kept.discovery), (1, "a"));
    let advanced = LocalClient::<()>::after_reload::<u8, &str, String>(kept, Ok(next));
    assert_eq!((advanced.binds, advanced.discovery), (2, "b"));
}

#[test]
fn only_files_are_watched() {
    let file = LocalClient { cfg: ConfigSource::File("/etc/config.yaml".to_string()), stores: () };
    let text = LocalClient { cfg: ConfigSource::Static("binds: []".to_string()), stores: () };
    assert!(file.is_watched());
    assert!(!text.is_watched());
}

#[test]
fn reloading_syncs_binds_then_discovery() {
    let order = std::cell::RefCell::new(Vec::new());
    let prev = PreviousState { binds: 1u8, discovery: 10u8 };
    let next = LocalClient::<()>::reload_config(
        prev,
        |b: u8| {
            order.borrow_mut().push("binds");
            b + 1
        },
        |d: u8| -> Result<u8, String> {
            order.borrow_mut().push("discovery");
            Ok(d + 1)
        },
    );
    let next = next.unwrap();
    assert_eq!((next.binds, next.discovery), (2, 11));
    assert_eq!(order.borrow().clone(), vec!["binds", "discovery"]);
    let failed = LocalClient::<()>::reload_config(
        PreviousState { binds: 1u8, discovery: 10u8 },
        |b: u8| b + 1,
        |_d: u8| -> Result<u8, String> { Err("no such workload".to_string()) },
    );
    assert_eq!(failed.err(), Some("no such workload".to_string()));
}
