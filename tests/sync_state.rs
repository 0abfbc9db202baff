use chat_sync::directory::{Directory, Roster};
use chat_sync::frame::{split_frame, Frame, FrameKind, RoomChange, UpdateName, UpdateSession};
use chat_sync::history::MessageContent;
use chat_sync::notice::{error, message, MessageItemType};
use chat_sync::sync::{Outbound, SyncState};

fn text(v: &serde_json::Value, key: &str) -> String {
    v[key].as_str().unwrap().to_string()
}

fn decode(frame: &str) -> Frame {
    let (kind, payload) = split_frame(frame);
    let v: serde_json::Value = serde_json::from_str(&payload).unwrap();
    match kind {
        FrameKind::Message => Frame::Message(MessageContent {
            id: v["id"].as_u64().unwrap() as u128,
            room: text(&v, "room"),
            from_id: text(&v, "from_id"),
            from_name: text(&v, "from_name"),
            content: text(&v, "content"),
            time: text(&v, "time"),
            is_own: if v["is_own"].is_null() { None } else { Some(()) },
        }),
        FrameKind::List => {
            let mut d = Directory::new();
            for (room, sessions) in v.as_object().unwrap() {
                let mut r = Roster::new();
                for (sid, name) in sessions.as_object().unwrap() {
                    r.insert(sid.clone(), name.as_str().unwrap().to_string());
                }
                d.insert_room(room.clone(), r);
            }
            Frame::List(d)
        }
        FrameKind::JoinRoom | FrameKind::QuitRoom => {
            let c = RoomChange {
                session_id: text(&v, "session_id"),
                name: text(&v, "name"),
                room: text(&v, "room"),
            };
            if kind == FrameKind::JoinRoom {
                Frame::JoinRoom(c)
            } else {
                Frame::QuitRoom(c)
            }
        }
        FrameKind::UpdateName => Frame::UpdateName(UpdateName {
            session_id: text(&v, "session_id"),
            name: text(&v, "name"),
            old_name: text(&v, "old_name"),
        }),
        FrameKind::UpdateSession => Frame::UpdateSession(UpdateSession {
            room: text(&v, "room"),
            name: text(&v, "name"),
        }),
        FrameKind::Unknown => panic!("untagged frame"),
    }
}

fn chat(id: u128, room: &str, content: &str) -> MessageContent {
    MessageContent {
        id,
        room: room.to_string(),
        from_id: "s2".to_string(),
        from_name: "Bob".to_string(),
        content: content.to_string(),
        time: String::new(),
        is_own: None,
    }
}

#[test]
fn scenario_list_join_message() {
    let mut s = SyncState::new();
    s.apply_frame(decode(r#"list:{"main":{"s1":"Alice"}}"#));
    s.apply_frame(decode(r#"join_room:{"session_id":"s2","name":"Bob","room":"main"}"#));
    s.apply_frame(decode(
        r#"message:{"id":7,"room":"main","from_id":"s2","from_name":"Bob","content":"hi","time":"","is_own":null}"#,
    ));
    let main = s.directory.roster_of("main").unwrap();
    assert_eq!(main.len(), 2);
    assert_eq!(main.name_of("s1"), Some("Alice".to_string()));
    assert_eq!(main.name_of("s2"), Some("Bob".to_string()));
    let log = s.history.get("main");
    assert_eq!(log.len(), 1);
    assert_eq!(log[0].id, 7);
    assert_eq!(log[0].content, "hi");
    assert_eq!(log[0].is_own, None);
    let items = s.notices.items();
    assert_eq!(items.len(), 1);
    assert_eq!(items[0].kind, MessageItemType::Primary);
    assert_eq!(items[0].room, "main");
    assert_eq!(items[0].content, "hi");
    assert_eq!(items[0].from, Some("Bob".to_string()));
    assert_eq!(items[0].from_id, Some("s2".to_string()));
    assert_eq!(items[0].timeout, None);
}

#[test]
fn list_replaces_everything() {
    let mut s = SyncState::new();
    s.apply_frame(decode(r#"list:{"old":{"x":"X"},"main":{"s9":"Zed"}}"#));
    s.apply_frame(decode(r#"list:{"main":{"s1":"Alice"},"empty":{}}"#));
    let mut rooms = s.directory.list_rooms();
    rooms.sort();
    assert_eq!(rooms, vec!["empty".to_string(), "main".to_string()]);
    let main = s.directory.roster_of("main").unwrap();
    assert_eq!(main.len(), 1);
    assert_eq!(main.name_of("s1"), Some("Alice".to_string()));
    assert_eq!(main.name_of("s9"), None);
    assert_eq!(s.directory.roster_of("empty").unwrap().len(), 0);
    assert!(s.directory.roster_of("old").is_none());
}

fn with_session(id: &str) -> SyncState {
    let mut s = SyncState::new();
    s.session_id = Some(id.to_string());
    s.apply_frame(decode(r#"list:{"main":{"me":"Me","other":"O","third":"T"},"side":{"me":"Me"}}"#));
    s
}

#[test]
fn self_quit_removes_room() {
    let mut s = with_session("me");
    s.apply_frame(decode(r#"quit_room:{"session_id":"me","name":"Me","room":"main"}"#));
    assert!(s.directory.roster_of("main").is_none());
    assert_eq!(s.directory.roster_of("side").unwrap().len(), 1);
}

#[test]
fn other_quit_removes_only_entry() {
    let mut s = with_session("me");
    s.apply_frame(decode(r#"quit_room:{"session_id":"other","name":"O","room":"main"}"#));
    let main = s.directory.roster_of("main").unwrap();
    assert_eq!(main.len(), 2);
    assert!(!main.contains("other"));
    assert!(main.contains("me"));
    assert!(main.contains("third"));
}

#[test]
fn last_member_quit_keeps_room() {
    let mut s = with_session("me");
    s.apply_frame(decode(r#"quit_room:{"session_id":"me","name":"Me","room":"nowhere"}"#));
    s.apply_frame(decode(r#"join_room:{"session_id":"a","name":"A","room":"solo"}"#));
    s.apply_frame(decode(r#"quit_room:{"session_id":"a","name":"A","room":"solo"}"#));
    assert_eq!(s.directory.roster_of("solo").unwrap().len(), 0);
    assert_eq!(s.directory.list_rooms().len(), 3);
}

#[test]
fn quit_without_known_session_removes_entry() {
    let mut s = SyncState::new();
    s.apply_frame(decode(r#"list:{"main":{"a":"A","b":"B"}}"#));
    s.apply_frame(decode(r#"quit_room:{"session_id":"a","name":"A","room":"main"}"#));
    let main = s.directory.roster_of("main").unwrap();
    assert_eq!(main.len(), 1);
    assert!(main.contains("b"));
}

#[test]
fn rename_everywhere_listed() {
    let mut s = with_session("me");
    s.apply_frame(decode(r#"update_name:{"session_id":"me","name":"Neo","old_name":"Me"}"#));
    assert_eq!(s.directory.roster_of("main").unwrap().name_of("me"), Some("Neo".to_string()));
    assert_eq!(s.directory.roster_of("side").unwrap().name_of("me"), Some("Neo".to_string()));
    assert_eq!(s.directory.roster_of("main").unwrap().name_of("other"), Some("O".to_string()));
    s.apply_frame(decode(r#"update_name:{"session_id":"ghost","name":"G","old_name":"g"}"#));
    assert_eq!(s.directory.roster_of("side").unwrap().len(), 1);
    assert_eq!(s.directory.roster_of("main").unwrap().len(), 3);
}

#[test]
fn update_session_sets_hint_only() {
    let mut s = SyncState::new();
    s.apply_frame(decode(r#"update_session:{"room":"lobby","name":"Me"}"#));
    assert_eq!(s.room_hint, Some("lobby".to_string()));
    assert_eq!(s.active_room, None);
}

#[test]
fn history_grows_by_one_in_any_dialog_state() {
    let mut s = SyncState::new();
    s.on_message(chat(1, "main", "a"));
    assert_eq!(s.history.count("main"), 1);
    s.open_dialog("main");
    s.on_message(chat(2, "main", "b"));
    assert_eq!(s.history.count("main"), 2);
    s.close_dialog();
    s.on_message(chat(3, "main", "c"));
    assert_eq!(s.history.count("main"), 3);
    let ids: Vec<u128> = s.history.get("main").iter().map(|m| m.id).collect();
    assert_eq!(ids, vec![1, 2, 3]);
}

#[test]
fn open_dialog_suppresses_previews_for_all_rooms() {
    let mut s = SyncState::new();
    s.open_dialog("main");
    s.on_message(chat(4, "other", "hello"));
    assert_eq!(s.history.count("other"), 1);
    assert_eq!(s.notices.len(), 0);
}

#[test]
fn closed_dialog_queues_preview() {
    let mut s = SyncState::new();
    s.on_message(chat(4, "other", "hello"));
    assert_eq!(s.notices.len(), 1);
    assert_eq!(s.notices.items()[0].room, "other");
}

#[test]
fn open_dialog_clears_all_notices() {
    let mut s = SyncState::new();
    s.notices.push(error("boom"));
    s.notices.push(message("main", "s2", "Bob", "hi"));
    assert_eq!(s.notices.len(), 2);
    s.open_dialog("main");
    assert_eq!(s.notices.len(), 0);
    assert_eq!(s.active_room, Some("main".to_string()));
}

#[test]
fn switch_room_keeps_notices() {
    let mut s = SyncState::new();
    s.open_dialog("main");
    s.notices.push(error("boom"));
    s.switch_room("side");
    assert_eq!(s.active_room, Some("side".to_string()));
    assert_eq!(s.notices.len(), 1);
}

#[test]
fn blank_send_is_a_no_op() {
    let mut s = SyncState::new();
    s.open_dialog("main");
    assert_eq!(s.send_chat("   \n"), None);
    assert_eq!(s.send_chat(""), None);
    assert_eq!(s.send_chat("\n\n\t \u{3000}"), None);
    assert_eq!(s.history.count("main"), 0);
}

#[test]
fn send_without_dialog_is_a_no_op() {
    let s = SyncState::new();
    assert_eq!(s.send_chat("hello"), None);
}

#[test]
fn send_then_record() {
    let mut s = SyncState::new();
    s.session_id = Some("me".to_string());
    s.open_dialog("main");
    let out = s.send_chat("  hello\n").unwrap();
    assert_eq!(out.text, "  hello\n");
    assert_eq!(out.room, Some("main".to_string()));
    s.record_sent(out);
    let log = s.history.get("main");
    assert_eq!(log.len(), 1);
    assert_eq!(log[0].id, 0);
    assert_eq!(log[0].room, "main");
    assert_eq!(log[0].from_id, "");
    assert_eq!(log[0].from_name, "me");
    assert_eq!(log[0].content, "  hello\n");
    assert_eq!(log[0].time, "");
    assert_eq!(log[0].is_own, Some(()));
}

#[test]
fn failed_send_is_not_recorded() {
    let mut s = SyncState::new();
    s.open_dialog("main");
    let _out = s.send_chat("hello").unwrap();
    s.record_send_failure("socket gone");
    assert_eq!(s.history.count("main"), 0);
    let items = s.notices.items();
    assert_eq!(items.len(), 1);
    assert_eq!(items[0].kind, MessageItemType::Danger);
    assert_eq!(items[0].room, "Error");
    assert_eq!(items[0].content, "socket gone");
    assert_eq!(items[0].timeout, None);
}

#[test]
fn presence_is_not_recorded() {
    let mut s = SyncState::new();
    let p = Outbound::presence();
    assert_eq!(p.text, "i am back online!");
    assert_eq!(p.room, None);
    s.record_sent(p);
    assert_eq!(s.history.count("main"), 0);
}

#[test]
fn transcript_lines() {
    let mut s = SyncState::new();
    s.on_message(chat(1, "main", "hi"));
    s.on_message(chat(2, "main", "there"));
    assert_eq!(s.history.transcript("main"), "Bob: hi\n\nBob: there\n\n");
    assert_eq!(s.history.transcript("nowhere"), "");
    assert!(s.history.get("nowhere").is_empty());
}

#[test]
fn dismiss_by_id() {
    let mut s = SyncState::new();
    s.on_message(chat(1, "main", "a"));
    s.on_message(chat(2, "side", "b"));
    let first = s.notices.items()[0].id;
    s.dismiss(first);
    assert_eq!(s.notices.len(), 1);
    assert_eq!(s.notices.items()[0].room, "side");
}
