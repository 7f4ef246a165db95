use agentgateway::strng::{empty, new, to_string, RichStrng, Strng};
use arcstr::ArcStr;

fn as_ref_fn<A: AsRef<str>>(_s: A) {}

fn into_string_fn<A: Into<String>>(_s: A) {}

fn string_fn(_s: String) {}

fn str_fn(_s: &str) {}

#[test]
fn interning() {
    // The string is a thin layer over ArcStr: hold the library to what is expected of it.
    let a = new("abc");
    let b = new("abc");
    assert_eq!(std::mem::size_of::<Strng>(), 8);
    assert_eq!(format!("{a}"), "abc");
    assert_eq!(ArcStr::from(format!("{a}")), "abc");
    assert_eq!(ArcStr::strong_count(&a), ArcStr::strong_count(&b));
    assert_eq!(ArcStr::strong_count(&a), Some(1));
    let c = a.clone();
    assert_eq!(ArcStr::strong_count(&a), ArcStr::strong_count(&c));
    assert_eq!(ArcStr::strong_count(&a), Some(2));
    assert_eq!("abc", b.to_string());

    // The string can be handed on in the usual ways.
    as_ref_fn(new("abc"));
    into_string_fn(&*new("abc"));
    string_fn(a.to_string());
    str_fn(&new("abc"));
}

#[test]
fn new_holds_the_given_text() {
    assert_eq!(new("type/name").as_str(), "type/name");
    assert_eq!(new("").as_str(), "");
    assert_eq!(new("héllo").as_str(), "héllo");
}

#[test]
fn equal_contents_are_equal() {
    assert_eq!(new("abc"), new("abc"));
    assert_ne!(new("abc"), new("abd"));
}

#[test]
fn empty_is_the_empty_string() {
    assert_eq!(empty().as_str(), "");
    assert!(empty().is_empty());
}

#[test]
fn to_string_copies_the_text() {
    assert_eq!(to_string(&new("abc")), "abc".to_string());
}

#[test]
fn rich_strng_wraps_and_reads() {
    let r = RichStrng::from_str("abc");
    assert_eq!(r.as_str(), "abc");
    assert!(!r.is_empty());
    assert_eq!(r.strng(), &new("abc"));
    assert!(RichStrng::from_str("").is_empty());
    assert!(RichStrng::default().is_empty());
    let s = new("xyz");
    let w = RichStrng::from_strng(s.clone());
    assert_eq!(w.as_str(), "xyz");
    assert_eq!(ArcStr::strong_count(&s), Some(2));
}

#[test]
fn rich_strng_clone_shares_the_text() {
    let r = RichStrng::from_str("abc");
    let c = r.clone();
    assert_eq!(c.as_str(), "abc");
    assert_eq!(ArcStr::strong_count(r.strng()), Some(2));
}
