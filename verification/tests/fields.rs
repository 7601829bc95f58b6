use http_client::StringMap;

fn text(s: &str) -> String {
    s.to_string()
}

#[test]
fn new_map_is_empty() {
    let fields = StringMap::new();
    assert!(fields.is_empty());
    assert_eq!(fields.len(), 0);
    assert!(!fields.contains_key("X"));
    assert_eq!(fields.get("X"), None);
}

#[test]
fn insert_is_read_back() {
    let mut fields = StringMap::new();
    assert_eq!(fields.insert(text("Accept"), text("*/*")), None);
    assert_eq!(fields.len(), 1);
    assert!(fields.contains_key("Accept"));
    assert_eq!(fields.get("Accept"), Some(&text("*/*")));
    assert_eq!(fields.get("accept"), None);
}

#[test]
fn later_write_wins_and_keeps_the_place() {
    let mut fields = StringMap::new();
    fields.insert(text("a"), text("1"));
    fields.insert(text("b"), text("2"));
    assert_eq!(fields.insert(text("a"), text("3")), Some(text("1")));
    assert_eq!(fields.len(), 2);
    assert_eq!(fields.entry(0), (&text("a"), &text("3")));
    assert_eq!(fields.entry(1), (&text("b"), &text("2")));
}

#[test]
fn entries_keep_insertion_order() {
    let mut fields = StringMap::new();
    fields.insert(text("z"), text("26"));
    fields.insert(text("a"), text("1"));
    fields.insert(text("m"), text("13"));
    assert_eq!(fields.entry(0).0, "z");
    assert_eq!(fields.entry(1).0, "a");
    assert_eq!(fields.entry(2).0, "m");
}

#[test]
fn clone_has_the_same_entries() {
    let mut fields = StringMap::new();
    fields.insert(text("k"), text("v"));
    fields.insert(text("k2"), text("v2"));
    let mut copy = fields.clone();
    assert_eq!(copy.len(), 2);
    assert_eq!(copy.entry(0), (&text("k"), &text("v")));
    assert_eq!(copy.entry(1), (&text("k2"), &text("v2")));
    copy.insert(text("k"), text("changed"));
    assert_eq!(fields.get("k"), Some(&text("v")));
}

#[test]
fn empty_key_and_value_are_ordinary() {
    let mut fields = StringMap::new();
    fields.insert(text(""), text(""));
    assert!(fields.contains_key(""));
    assert_eq!(fields.get(""), Some(&text("")));
}
