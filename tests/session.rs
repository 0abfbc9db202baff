use chat_sync::session::{step, ConnAction, ConnEvent, ConnState, WriteQueue};
use chat_sync::sync::Outbound;

#[test]
fn life_cycle() {
    assert_eq!(step(ConnState::Disconnected, ConnEvent::Dial), (ConnState::Connecting, ConnAction::Idle));
    assert_eq!(step(ConnState::Connecting, ConnEvent::Opened), (ConnState::Open, ConnAction::Announce));
    assert_eq!(
        step(ConnState::Open, ConnEvent::Text("list:{}".to_string())),
        (ConnState::Open, ConnAction::Deliver("list:{}".to_string()))
    );
    assert_eq!(step(ConnState::Open, ConnEvent::Binary), (ConnState::Open, ConnAction::Idle));
    assert_eq!(step(ConnState::Open, ConnEvent::SendError), (ConnState::Open, ConnAction::Report));
    assert_eq!(step(ConnState::Open, ConnEvent::ReadError), (ConnState::Open, ConnAction::Report));
    assert_eq!(step(ConnState::Open, ConnEvent::ConnectionClose), (ConnState::Closed, ConnAction::Stop));
    assert_eq!(step(ConnState::Open, ConnEvent::ConnectionError), (ConnState::Errored, ConnAction::Stop));
}

#[test]
fn final_states_stay() {
    for s in [ConnState::Closed, ConnState::Errored] {
        assert_eq!(step(s, ConnEvent::Opened), (s, ConnAction::Stop));
        assert_eq!(step(s, ConnEvent::Text("x".to_string())), (s, ConnAction::Stop));
    }
}

fn out(t: &str) -> Outbound {
    Outbound { text: t.to_string(), room: Some("main".to_string()) }
}

#[test]
fn one_write_in_flight() {
    let mut q = WriteQueue::new();
    assert!(!q.is_busy());
    assert_eq!(q.submit(out("a")), Some(out("a")));
    assert_eq!(q.submit(out("b")), None);
    assert_eq!(q.submit(out("c")), None);
    assert_eq!(q.waiting(), 2);
    assert_eq!(q.complete(), Some(out("b")));
    assert!(q.is_busy());
    assert_eq!(q.complete(), Some(out("c")));
    assert_eq!(q.complete(), None);
    assert!(!q.is_busy());
    assert_eq!(q.submit(out("d")), Some(out("d")));
}
