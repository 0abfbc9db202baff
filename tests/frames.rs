use chat_sync::frame::{split_frame, starts_with, FrameKind};

#[test]
fn each_tag_is_recognised() {
    let cases = [
        ("message:{}", FrameKind::Message),
        ("update_session:{}", FrameKind::UpdateSession),
        ("list:{}", FrameKind::List),
        ("join_room:{}", FrameKind::JoinRoom),
        ("quit_room:{}", FrameKind::QuitRoom),
        ("update_name:{}", FrameKind::UpdateName),
    ];
    for (text, kind) in cases {
        let (k, p) = split_frame(text);
        assert_eq!(k, kind);
        assert_eq!(p, "{}");
        assert_eq!(kind.prefix().len() + 2, text.len());
    }
}

#[test]
fn untagged_frame_is_kept_whole() {
    let (k, p) = split_frame("hello list:{}");
    assert_eq!(k, FrameKind::Unknown);
    assert_eq!(p, "hello list:{}");
    assert_eq!(FrameKind::Unknown.prefix(), "");
}

#[test]
fn prefix_is_stripped_once() {
    let (k, p) = split_frame("message:message:x");
    assert_eq!(k, FrameKind::Message);
    assert_eq!(p, "message:x");
}

#[test]
fn payload_may_hold_other_tags() {
    let (k, p) = split_frame("list:join_room:é");
    assert_eq!(k, FrameKind::List);
    assert_eq!(p, "join_room:é");
}

#[test]
fn prefix_test() {
    assert!(starts_with("abc", "ab"));
    assert!(starts_with("abc", ""));
    assert!(!starts_with("ab", "abc"));
    assert!(!starts_with("xbc", "ab"));
    assert!(starts_with("éa", "é"));
}
