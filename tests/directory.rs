use chat_sync::directory::{Directory, Roster};

#[test]
fn upsert_overwrites_name() {
    let mut d = Directory::new();
    d.upsert("main", "s1", "Alice");
    d.upsert("main", "s1", "Alicia");
    d.upsert("main", "s2", "Bob");
    let r = d.roster_of("main").unwrap();
    assert_eq!(r.len(), 2);
    assert_eq!(r.name_of("s1"), Some("Alicia".to_string()));
    let mut members = r.members();
    members.sort();
    assert_eq!(members, vec![("s1".to_string(), "Alicia".to_string()), ("s2".to_string(), "Bob".to_string())]);
}

#[test]
fn removals() {
    let mut d = Directory::new();
    d.upsert("main", "s1", "Alice");
    d.upsert("side", "s1", "Alice");
    d.remove_session("nowhere", "s1");
    d.remove_session("main", "s1");
    assert_eq!(d.roster_of("main").unwrap().len(), 0);
    d.remove_room("side");
    assert!(d.roster_of("side").is_none());
    d.remove_room("side");
    assert_eq!(d.list_rooms(), vec!["main".to_string()]);
}

#[test]
fn replace_is_total() {
    let mut d = Directory::new();
    d.upsert("a", "1", "One");
    let mut m = Directory::new();
    let mut r = Roster::new();
    r.insert("2".to_string(), "Two".to_string());
    m.insert_room("b".to_string(), r);
    d.replace(m);
    assert_eq!(d.list_rooms(), vec!["b".to_string()]);
    assert_eq!(d.roster_of("b").unwrap().name_of("2"), Some("Two".to_string()));
}

#[test]
fn roster_rename_and_remove() {
    let mut r = Roster::new();
    r.insert("s".to_string(), "S".to_string());
    r.rename("t", "T");
    assert!(!r.contains("t"));
    r.rename("s", "Z");
    assert_eq!(r.name_of("s"), Some("Z".to_string()));
    assert!(r.remove("s"));
    assert!(!r.remove("s"));
}
