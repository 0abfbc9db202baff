use chat_sync::notice::{error, info, message, ok, warn, MessageItemType, MessageItemValue, NotificationQueue};

#[test]
fn factory_kinds_and_lifetimes() {
    let s = ok("saved");
    assert_eq!((s.kind, s.room.as_str(), s.content.as_str(), s.timeout), (MessageItemType::Success, "Success", "saved", Some(5)));
    let w = warn("careful");
    assert_eq!((w.kind, w.room.as_str(), w.timeout), (MessageItemType::Warning, "Warning", Some(10)));
    let i = info("fyi");
    assert_eq!((i.kind, i.room.as_str(), i.timeout), (MessageItemType::Info, "Info", Some(8)));
    let e = error("bad");
    assert_eq!((e.kind, e.room.as_str(), e.timeout), (MessageItemType::Danger, "Error", None));
    assert_eq!(e.from, None);
    let m = message("main", "s2", "Bob", "hi");
    assert_eq!((m.kind, m.room.as_str(), m.content.as_str(), m.timeout), (MessageItemType::Primary, "main", "hi", None));
    assert_eq!(m.from, Some("Bob".to_string()));
    assert_eq!(m.from_id, Some("s2".to_string()));
}

#[test]
fn fresh_ids_differ() {
    let a = ok("x");
    let b = ok("x");
    assert_ne!(a.id, b.id);
}

#[test]
fn with_id_keeps_fields() {
    let v = MessageItemValue::with_id(42, MessageItemType::Link, "r", "c", Some(3), Some("f"), None);
    assert_eq!(v.id, 42);
    assert_eq!(v.kind, MessageItemType::Link);
    assert_eq!(v.room, "r");
    assert_eq!(v.content, "c");
    assert_eq!(v.timeout, Some(3));
    assert_eq!(v.from, Some("f".to_string()));
    assert_eq!(v.from_id, None);
}

fn ids(q: &NotificationQueue) -> Vec<u128> {
    q.items().iter().map(|n| n.id).collect()
}

#[test]
fn dismiss_is_idempotent() {
    let mut q = NotificationQueue::new();
    let a = q.push(MessageItemValue::with_id(1, MessageItemType::Info, "Info", "a", Some(8), None, None));
    q.push(MessageItemValue::with_id(2, MessageItemType::Danger, "Error", "b", None, None, None));
    q.push(MessageItemValue::with_id(3, MessageItemType::Success, "Success", "c", Some(5), None, None));
    assert_eq!(a, 1);
    q.dismiss(2);
    assert_eq!(ids(&q), vec![1, 3]);
    q.dismiss(2);
    assert_eq!(ids(&q), vec![1, 3]);
    q.dismiss(99);
    assert_eq!(ids(&q), vec![1, 3]);
}

#[test]
fn clear_then_late_dismiss() {
    let mut q = NotificationQueue::new();
    let id = q.push(ok("done"));
    q.clear_all();
    assert_eq!(q.len(), 0);
    q.dismiss(id);
    assert_eq!(q.len(), 0);
}
