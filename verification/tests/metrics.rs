use agentgateway::metrics::{
    sub_registry, DefaultedUnknown, EncodeDisplay, EncodeLabel, IncrementRecorder, Recorder,
};
use agentgateway::strng::{new, RichStrng, Strng};
use prometheus_client::metrics::counter::Counter;
use prometheus_client::registry::Registry;
use std::sync::Mutex;

struct Tally {
    events: Mutex<Vec<(String, u64)>>,
}

impl Recorder<&str, u64> for Tally {
    fn record(&self, event: &str, meta: u64) {
        self.events.lock().unwrap().push((event.to_string(), meta));
    }
}

#[test]
fn increment_records_one() {
    let t = Tally { events: Mutex::new(Vec::new()) };
    t.increment("reconnect");
    t.record("bytes", 40);
    t.increment("reconnect");
    assert_eq!(
        t.events.lock().unwrap().clone(),
        vec![("reconnect".to_string(), 1), ("bytes".to_string(), 40), ("reconnect".to_string(), 1)]
    );
}

#[test]
fn sub_registry_prefixes_metrics() {
    let mut registry = Registry::default();
    let counter: Counter = Counter::default();
    sub_registry(&mut registry).register("requests", "number of requests", counter.clone());
    counter.inc();
    let mut out = String::new();
    prometheus_client::encoding::text::encode(&mut out, &registry).unwrap();
    assert!(out.contains("agentgateway_requests_total 1"));
}

#[test]
fn empty_strings_count_as_missing() {
    assert_eq!(DefaultedUnknown::<String>::from(String::new()).inner(), None);
    assert_eq!(DefaultedUnknown::<String>::from("x".to_string()).inner(), Some("x".to_string()));
    assert!(DefaultedUnknown::<RichStrng>::from(String::new()).inner().is_none());
    assert_eq!(DefaultedUnknown::<RichStrng>::from("x".to_string()).to_value(), Some("x"));
    assert!(DefaultedUnknown::<RichStrng>::from(new("")).inner().is_none());
    assert_eq!(DefaultedUnknown::<RichStrng>::from(new("y")).to_value(), Some("y"));
    assert!(DefaultedUnknown::<RichStrng>::from(RichStrng::from_str("")).inner().is_none());
    assert_eq!(DefaultedUnknown::<RichStrng>::from(RichStrng::from_str("z")).to_value(), Some("z"));
    assert_eq!(DefaultedUnknown::<RichStrng>::from_str("w").to_value(), Some("w"));
    assert_eq!(DefaultedUnknown::<RichStrng>::from_str("").to_value(), None);
}

#[test]
fn options_are_kept_as_they_are() {
    let some: Option<Strng> = Some(new(""));
    assert_eq!(DefaultedUnknown::<RichStrng>::from(some.clone()).to_value(), Some(""));
    assert_eq!(DefaultedUnknown::<RichStrng>::from(&some).to_value(), Some(""));
    assert_eq!(DefaultedUnknown::<RichStrng>::from(some.as_ref()).to_value(), Some(""));
    let none: Option<Strng> = None;
    assert_eq!(DefaultedUnknown::<RichStrng>::from(none.clone()).to_value(), None);
    assert_eq!(DefaultedUnknown::<RichStrng>::from(&none).to_value(), None);
    assert_eq!(DefaultedUnknown::<RichStrng>::from(none.as_ref()).to_value(), None);
    assert_eq!(DefaultedUnknown::<u32>::from(Some(3)).inner(), Some(3));
    assert_eq!(DefaultedUnknown::<u32>::from(None).as_ref(), None);
    assert_eq!(DefaultedUnknown::<u32>::from(Some(4)).as_ref(), Some(&4));
    assert_eq!(DefaultedUnknown::<u32>::default().inner(), None);
    let back: Option<u32> = DefaultedUnknown::<u32>::from(Some(5)).into();
    assert_eq!(back, Some(5));
}

#[test]
fn display_wraps_the_text() {
    let some = DefaultedUnknown::<RichStrng>::from_str("abc");
    assert_eq!(format!("{:?}", some.display().unwrap()), "abc");
    assert!(DefaultedUnknown::<RichStrng>::from_str("").display().is_none());
}

#[test]
fn labels() {
    assert_eq!(RichStrng::from_str("abc").label(), "abc");
    assert_eq!(DefaultedUnknown::<RichStrng>::from_str("abc").label(), "abc");
    assert_eq!(DefaultedUnknown::<RichStrng>::from_str("").label(), "unknown");
    assert_eq!(EncodeDisplay::from(42u16).label(), "42");
    assert_eq!(DefaultedUnknown::<EncodeDisplay<u16>>::from(Some(7u16)).label(), "7");
    assert_eq!(DefaultedUnknown::<EncodeDisplay<u16>>::from(None::<u16>).label(), "unknown");
}
