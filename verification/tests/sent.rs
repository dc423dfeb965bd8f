use freebies::sent::Sent;

fn s(text: &str) -> String {
    text.to_string()
}

#[test]
fn new_window_is_empty() {
    let sent = Sent::new(3);
    assert_eq!(sent.len(), 0);
    assert_eq!(sent.max(), 3);
    assert!(!sent.contains(s("FREE Game A")));
}

#[test]
fn added_title_is_contained() {
    let mut sent = Sent::new(3);
    assert!(!sent.contains(s("FREE Game A")));
    sent.add(s("FREE Game A"));
    assert!(sent.contains(s("FREE Game A")));
    assert_eq!(sent.len(), 1);
}

#[test]
fn membership_is_exact_equality() {
    let mut sent = Sent::new(3);
    sent.add(s("FREE Game A"));
    assert!(!sent.contains(s("FREE Game")));
    assert!(!sent.contains(s("free game a")));
    assert!(!sent.contains(s("FREE Game A ")));
    assert!(!sent.contains(s("")));
}

#[test]
fn window_never_exceeds_capacity() {
    let mut sent = Sent::new(3);
    for i in 0..10 {
        sent.add(format!("title {}", i));
        assert!(sent.len() <= 3);
    }
    assert_eq!(sent.len(), 3);
}

#[test]
fn oldest_title_is_evicted_first() {
    let mut sent = Sent::new(2);
    sent.add(s("a"));
    sent.add(s("b"));
    assert!(sent.contains(s("a")));
    assert!(sent.contains(s("b")));
    sent.add(s("c"));
    assert!(!sent.contains(s("a")));
    assert!(sent.contains(s("b")));
    assert!(sent.contains(s("c")));
    sent.add(s("d"));
    assert!(!sent.contains(s("b")));
    assert!(sent.contains(s("c")));
    assert!(sent.contains(s("d")));
    assert_eq!(sent.len(), 2);
}

#[test]
fn eviction_goes_by_insertion_not_by_lookup() {
    let mut sent = Sent::new(2);
    sent.add(s("a"));
    sent.add(s("b"));
    assert!(sent.contains(s("a")));
    sent.add(s("c"));
    assert!(!sent.contains(s("a")));
}

#[test]
fn capacity_one_keeps_only_the_latest() {
    let mut sent = Sent::new(1);
    sent.add(s("a"));
    sent.add(s("b"));
    assert!(!sent.contains(s("a")));
    assert!(sent.contains(s("b")));
    assert_eq!(sent.len(), 1);
}

#[test]
fn capacity_zero_keeps_nothing() {
    let mut sent = Sent::new(0);
    sent.add(s("a"));
    assert_eq!(sent.len(), 0);
    assert!(!sent.contains(s("a")));
    sent.add(s("b"));
    assert_eq!(sent.len(), 0);
    assert_eq!(sent.max(), 0);
}

#[test]
fn same_title_twice_takes_two_places() {
    let mut sent = Sent::new(2);
    sent.add(s("a"));
    sent.add(s("a"));
    assert_eq!(sent.len(), 2);
    sent.add(s("b"));
    assert!(sent.contains(s("a")));
    sent.add(s("c"));
    assert!(!sent.contains(s("a")));
}
