use agentgateway::assoc::{AssocList, Key, KeySet};
use agentgateway::strng::new;

#[test]
fn assoc_list_insert_get_remove() {
    let mut m: AssocList<String, u32> = AssocList::new();
    assert_eq!(m.len(), 0);
    assert_eq!(m.insert("a".to_string(), 1), None);
    assert_eq!(m.insert("b".to_string(), 2), None);
    assert_eq!(m.insert("a".to_string(), 3), Some(1));
    assert_eq!(m.len(), 2);
    assert_eq!(m.get(&"a".to_string()), Some(&3));
    assert_eq!(m.get(&"b".to_string()), Some(&2));
    assert_eq!(m.get(&"c".to_string()), None);
    assert!(m.contains_key(&"b".to_string()));
    assert_eq!(m.position(&"b".to_string()), Some(1));
    assert_eq!(m.remove(&"a".to_string()), Some(3));
    assert_eq!(m.remove(&"a".to_string()), None);
    assert_eq!(m.len(), 1);
    assert_eq!(m.key_at(0), "b");
    assert_eq!(*m.value_at(0), 2);
}

#[test]
fn assoc_list_copy_keeps_keys_and_texts() {
    let mut m: AssocList<String, String> = AssocList::new();
    m.insert("k1".to_string(), "v1".to_string());
    m.insert("k2".to_string(), "v2".to_string());
    let c = m.copy();
    assert_eq!(c.len(), 2);
    assert_eq!(c.get(&"k1".to_string()), Some(&"v1".to_string()));
    assert_eq!(c.get(&"k2".to_string()), Some(&"v2".to_string()));
    assert_eq!(c.key_at(0), "k1");
}

#[test]
fn key_set_holds_each_key_once() {
    let mut s = KeySet::new();
    assert!(s.is_empty());
    assert!(s.insert(new("a")));
    assert!(!s.insert(new("a")));
    assert!(s.insert(new("b")));
    assert_eq!(s.len(), 2);
    assert!(s.contains(&new("a")));
    assert!(!s.contains(&new("c")));
    assert!(s.remove(&new("a")));
    assert!(!s.remove(&new("a")));
    assert_eq!(s.len(), 1);
    assert_eq!(s.key_at(0).as_str(), "b");
}

#[test]
fn keys_compare_by_text() {
    assert!(new("abc").same(&new("abc")));
    assert!(!new("abc").same(&new("abd")));
    assert_eq!(new("abc").duplicate().as_str(), "abc");
    assert!("x".to_string().same(&"x".to_string()));
    assert!(!"x".to_string().same(&"y".to_string()));
    assert_eq!("x".to_string().duplicate(), "x");
}
