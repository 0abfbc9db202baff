//! The wire protocol: one text frame per event, tagged by a literal prefix
//! followed by a JSON payload.

use vstd::prelude::*;
use crate::directory::Directory;
use crate::history::MessageContent;

verus! {

/// The tag of an inbound frame.
#[derive(Clone, Copy, Debug, PartialEq, Eq, Structural)]
pub enum FrameKind {
    Message,
    UpdateSession,
    List,
    JoinRoom,
    QuitRoom,
    UpdateName,
    Unknown,
}

impl FrameKind {
    /// The literal prefix of frames of this kind; empty for `Unknown`.
    pub open spec fn spec_prefix(self) -> Seq<char> {
        match self {
            FrameKind::Message => "message:"@,
            FrameKind::UpdateSession => "update_session:"@,
            FrameKind::List => "list:"@,
            FrameKind::JoinRoom => "join_room:"@,
            FrameKind::QuitRoom => "quit_room:"@,
            FrameKind::UpdateName => "update_name:"@,
            FrameKind::Unknown => Seq::empty(),
        }
    }

    /// The literal prefix of frames of this kind; empty for `Unknown`.
    pub fn prefix(&self) -> (r: &'static str)
        ensures
            r@ == self.spec_prefix(),
    {
        match self {
            FrameKind::Message => "message:",
            FrameKind::UpdateSession => "update_session:",
            FrameKind::List => "list:",
            FrameKind::JoinRoom => "join_room:",
            FrameKind::QuitRoom => "quit_room:",
            FrameKind::UpdateName => "update_name:",
            FrameKind::Unknown => {
                let r = "";
                proof {
                    reveal_strlit("");
                }
                r
            },
        }
    }
}

/// Whether `text` begins with `prefix`.
pub open spec fn has_prefix(text: Seq<char>, prefix: Seq<char>) -> bool {
    prefix.len() <= text.len() && text.subrange(0, prefix.len() as int) == prefix
}

/// The kind of a frame: the first tag, in this order, that begins it.
pub open spec fn kind_of(text: Seq<char>) -> FrameKind {
    if has_prefix(text, FrameKind::Message.spec_prefix()) {
        FrameKind::Message
    } else if has_prefix(text, FrameKind::UpdateSession.spec_prefix()) {
        FrameKind::UpdateSession
    } else if has_prefix(text, FrameKind::List.spec_prefix()) {
        FrameKind::List
    } else if has_prefix(text, FrameKind::JoinRoom.spec_prefix()) {
        FrameKind::JoinRoom
    } else if has_prefix(text, FrameKind::QuitRoom.spec_prefix()) {
        FrameKind::QuitRoom
    } else if has_prefix(text, FrameKind::UpdateName.spec_prefix()) {
        FrameKind::UpdateName
    } else {
        FrameKind::Unknown
    }
}

/// Whether `text` begins with `prefix`.
pub fn starts_with(text: &str, prefix: &str) -> (r: bool)
    ensures
        r == has_prefix(text@, prefix@),
{
    let n = prefix.unicode_len();
    if n > text.unicode_len() {
        return false;
    }
    let mut i: usize = 0;
    while i < n
        invariant
            n == prefix@.len(),
            n <= text@.len(),
            i <= n,
            forall|j: int| 0 <= j < i ==> text@[j] == prefix@[j],
        decreases n - i,
    {
        if text.get_char(i) != prefix.get_char(i) {
            assert(text@.subrange(0, n as int)[i as int] != prefix@[i as int]);
            return false;
        }
        i = i + 1;
    }
    assert(text@.subrange(0, n as int) =~= prefix@);
    true
}

/// Splits an inbound frame into its kind and its payload: the text after the
/// tag, or the whole text where no tag begins it.
pub fn split_frame(text: &str) -> (r: (FrameKind, String))
    ensures
        r.0 == kind_of(text@),
        r.1@ == text@.subrange(r.0.spec_prefix().len() as int, text@.len() as int),
{
    let kind = if starts_with(text, FrameKind::Message.prefix()) {
        FrameKind::Message
    } else if starts_with(text, FrameKind::UpdateSession.prefix()) {
        FrameKind::UpdateSession
    } else if starts_with(text, FrameKind::List.prefix()) {
        FrameKind::List
    } else if starts_with(text, FrameKind::JoinRoom.prefix()) {
        FrameKind::JoinRoom
    } else if starts_with(text, FrameKind::QuitRoom.prefix()) {
        FrameKind::QuitRoom
    } else if starts_with(text, FrameKind::UpdateName.prefix()) {
        FrameKind::UpdateName
    } else {
        FrameKind::Unknown
    };
    let skip = kind.prefix().unicode_len();
    let rest = text.substring_char(skip, text.unicode_len());
    (kind, rest.to_owned())
}

/// Payload of `update_session:`.
#[derive(Clone, Debug, PartialEq)]
pub struct UpdateSession {
    pub room: String,
    pub name: String,
}

/// Payload of `join_room:` and `quit_room:`.
#[derive(Clone, Debug, PartialEq)]
pub struct RoomChange {
    pub session_id: String,
    pub name: String,
    pub room: String,
}

/// Payload of `update_name:`.
#[derive(Clone, Debug, PartialEq)]
pub struct UpdateName {
    pub session_id: String,
    pub name: String,
    pub old_name: String,
}

/// A decoded inbound frame.
pub enum Frame {
    Message(MessageContent),
    UpdateSession(UpdateSession),
    List(Directory),
    JoinRoom(RoomChange),
    QuitRoom(RoomChange),
    UpdateName(UpdateName),
}

} // verus!
