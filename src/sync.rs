//! The state that the chat client keeps for one connection, and how inbound
//! frames and user commands change it.

use vstd::prelude::*;
use crate::account::CurrentUser;
use crate::directory::{renamed, roster_or_empty, Directory};
use crate::frame::{Frame, RoomChange, UpdateName, UpdateSession};
use crate::history::{log_or_empty, History, MessageContent};
use crate::notice::{error, message, opt_view, without_id, MessageItemType, NoticeView, NotificationQueue};
use crate::text::{blank, is_blank};

verus! {

/// A frame to write to the socket. `room` is the room a chat message goes
/// to; the wire carries `text` alone.
#[derive(Clone, Debug, PartialEq)]
pub struct Outbound {
    pub text: String,
    pub room: Option<String>,
}

impl Outbound {
    /// The announcement sent once the connection is open.
    pub fn presence() -> (r: Self)
        ensures
            r.text@ == "i am back online!"@,
            r.room is None,
    {
        Outbound { text: "i am back online!".to_owned(), room: None }
    }
}

/// The plain contents of the synchronised state.
pub struct SyncView {
    pub directory: Map<Seq<char>, Map<Seq<char>, Seq<char>>>,
    pub history: Map<Seq<char>, Seq<MessageContent>>,
    pub notices: Seq<NoticeView>,
    pub active_room: Option<Seq<char>>,
    pub room_hint: Option<Seq<char>>,
    pub session_id: Option<Seq<char>>,
}

/// The chat preview of `m`, with identifier `id`.
pub open spec fn preview_of(m: MessageContent, id: u128) -> NoticeView {
    NoticeView {
        id,
        kind: MessageItemType::Primary,
        label: m.room@,
        content: m.content@,
        from: Some(m.from_name@),
        from_id: Some(m.from_id@),
        timeout: None,
    }
}

/// After an inbound chat message: it is logged under its room, and a
/// preview with identifier `id` is queued unless a dialog is open.
pub open spec fn after_message(pre: SyncView, m: MessageContent, id: u128) -> SyncView {
    SyncView {
        history: pre.history.insert(m.room@, log_or_empty(pre.history, m.room@).push(m)),
        notices: if pre.active_room is None {
            pre.notices.push(preview_of(m, id))
        } else {
            pre.notices
        },
        ..pre
    }
}

/// After `update_session:`: the room hint is set.
pub open spec fn after_update_session(pre: SyncView, room: Seq<char>) -> SyncView {
    SyncView { room_hint: Some(room), ..pre }
}

/// After `list:`: the directory is the one received.
pub open spec fn after_list(
    pre: SyncView,
    listed: Map<Seq<char>, Map<Seq<char>, Seq<char>>>,
) -> SyncView {
    SyncView { directory: listed, ..pre }
}

/// After `join_room:`: the session is listed in the room under its name.
pub open spec fn after_join(
    pre: SyncView,
    session: Seq<char>,
    name: Seq<char>,
    room: Seq<char>,
) -> SyncView {
    SyncView {
        directory: pre.directory.insert(
            room,
            roster_or_empty(pre.directory, room).insert(session, name),
        ),
        ..pre
    }
}

/// After `quit_room:`: where the local session quit, the room goes;
/// otherwise only that session leaves the room.
pub open spec fn after_quit(pre: SyncView, session: Seq<char>, room: Seq<char>) -> SyncView {
    SyncView {
        directory: if pre.session_id == Some(session) {
            pre.directory.remove(room)
        } else if pre.directory.contains_key(room) {
            pre.directory.insert(room, pre.directory[room].remove(session))
        } else {
            pre.directory
        },
        ..pre
    }
}

/// After `update_name:`: the session has the new name in every room.
pub open spec fn after_rename(pre: SyncView, session: Seq<char>, name: Seq<char>) -> SyncView {
    SyncView {
        directory: pre.directory.map_values(
            |r: Map<Seq<char>, Seq<char>>| renamed(r, session, name),
        ),
        ..pre
    }
}

/// `post` is `pre` after `frame`; `id` is the identifier of a queued preview.
pub open spec fn frame_applied(pre: SyncView, frame: Frame, post: SyncView, id: u128) -> bool {
    match frame {
        Frame::Message(m) => post == after_message(pre, m, id),
        Frame::UpdateSession(u) => post == after_update_session(pre, u.room@),
        Frame::List(d) => post == after_list(pre, d@),
        Frame::JoinRoom(c) => post == after_join(pre, c.session_id@, c.name@, c.room@),
        Frame::QuitRoom(c) => post == after_quit(pre, c.session_id@, c.room@),
        Frame::UpdateName(u) => post == after_rename(pre, u.session_id@, u.name@),
    }
}

/// A `list:` frame leaves exactly the listed directory, whatever was there.
pub proof fn lemma_list_replaces(
    pre: SyncView,
    listed: Map<Seq<char>, Map<Seq<char>, Seq<char>>>,
)
    ensures
        after_list(pre, listed).directory == listed,
{
}

/// When the local session quits a room, the whole room leaves the directory,
/// whoever else was listed in it.
pub proof fn lemma_own_quit_drops_room(pre: SyncView, session: Seq<char>, room: Seq<char>)
    requires
        pre.session_id == Some(session),
    ensures
        !after_quit(pre, session, room).directory.contains_key(room),
        after_quit(pre, session, room).directory == pre.directory.remove(room),
{
}

/// When another session quits a listed room, only its entry goes: the room
/// stays listed with everyone else in it.
pub proof fn lemma_other_quit_drops_entry(pre: SyncView, session: Seq<char>, room: Seq<char>)
    requires
        pre.session_id != Some(session),
        pre.directory.contains_key(room),
    ensures
        after_quit(pre, session, room).directory.contains_key(room),
        after_quit(pre, session, room).directory[room] == pre.directory[room].remove(session),
        forall|other: Seq<char>|
            other != room ==> #[trigger] after_quit(pre, session, room).directory.get(other)
                == pre.directory.get(other),
{
}

/// An inbound chat message adds exactly one entry, itself, at the end of
/// the log of its room, whether or not a dialog is open.
pub proof fn lemma_message_logged(pre: SyncView, m: MessageContent, id: u128)
    ensures
        log_or_empty(after_message(pre, m, id).history, m.room@).len() == log_or_empty(
            pre.history,
            m.room@,
        ).len() + 1,
        log_or_empty(after_message(pre, m, id).history, m.room@).last() == m,
        log_or_empty(after_message(pre, m, id).history, m.room@).drop_last() == log_or_empty(
            pre.history,
            m.room@,
        ),
{
    let log = log_or_empty(pre.history, m.room@);
    assert(log.push(m).drop_last() =~= log);
}

/// While a dialog is open on any room, an inbound chat message for any room
/// queues no notice.
pub proof fn lemma_open_dialog_suppresses(pre: SyncView, m: MessageContent, id: u128)
    requires
        pre.active_room is Some,
    ensures
        after_message(pre, m, id).notices == pre.notices,
{
}

/// A chat message that this client sent to `room`.
pub open spec fn own_record(
    e: MessageContent,
    room: Seq<char>,
    text: Seq<char>,
    session: Option<Seq<char>>,
) -> bool {
    &&& e.id == 0
    &&& e.room@ == room
    &&& e.from_id@ == Seq::<char>::empty()
    &&& e.from_name@ == match session {
        Some(s) => s,
        None => Seq::<char>::empty(),
    }
    &&& e.content@ == text
    &&& e.time@ == Seq::<char>::empty()
    &&& e.is_own == Some(())
}

/// Directory, history, notices and dialog state of one connection.
pub struct SyncState {
    pub directory: Directory,
    pub history: History,
    pub notices: NotificationQueue,
    /// The room whose dialog is open; `None` while no dialog is open.
    pub active_room: Option<String>,
    /// The room the server last reported for this session.
    pub room_hint: Option<String>,
    /// The local session's identity, once resolved.
    pub session_id: Option<String>,
}

impl View for SyncState {
    type V = SyncView;

    open spec fn view(&self) -> SyncView {
        SyncView {
            directory: self.directory@,
            history: self.history@,
            notices: self.notices@,
            active_room: opt_view(self.active_room),
            room_hint: opt_view(self.room_hint),
            session_id: opt_view(self.session_id),
        }
    }
}

fn same_text(a: &String, b: &String) -> (r: bool)
    ensures
        r == (a@ == b@),
{
    *a == *b
}

impl SyncState {
    pub fn new() -> (r: Self)
        ensures
            r@.directory == Map::<Seq<char>, Map<Seq<char>, Seq<char>>>::empty(),
            r@.history == Map::<Seq<char>, Seq<MessageContent>>::empty(),
            r@.notices == Seq::<NoticeView>::empty(),
            r@.active_room is None,
            r@.room_hint is None,
            r@.session_id is None,
    {
        SyncState {
            directory: Directory::new(),
            history: History::new(),
            notices: NotificationQueue::new(),
            active_room: None,
            room_hint: None,
            session_id: None,
        }
    }

    /// Sets the local session's identity from the signed-in user, unless it
    /// is already known.
    pub fn resolve_session(&mut self, user: &CurrentUser)
        ensures
            final(self)@ == (SyncView {
                session_id: match old(self)@.session_id {
                    Some(s) => Some(s),
                    None => Some(user.spec_session_name()),
                },
                ..old(self)@
            }),
    {
        if self.session_id.is_none() {
            self.session_id = Some(user.session_name());
        }
    }

    /// Handles an inbound chat message.
    pub fn on_message(&mut self, m: MessageContent)
        ensures
            final(self)@ == after_message(old(self)@, m, final(self)@.notices.last().id),
    {
        if self.active_room.is_none() {
            let preview = message(
                m.room.as_str(),
                m.from_id.as_str(),
                m.from_name.as_str(),
                m.content.as_str(),
            );
            self.notices.push(preview);
        }
        let room = m.room.clone();
        self.history.append(room.as_str(), m);
    }

    /// Handles `update_session:`.
    pub fn on_update_session(&mut self, u: UpdateSession)
        ensures
            final(self)@ == after_update_session(old(self)@, u.room@),
    {
        self.room_hint = Some(u.room);
    }

    /// Handles `list:`.
    pub fn on_list(&mut self, listed: Directory)
        ensures
            final(self)@ == after_list(old(self)@, listed@),
    {
        self.directory.replace(listed);
    }

    /// Handles `join_room:`.
    pub fn on_join(&mut self, c: RoomChange)
        ensures
            final(self)@ == after_join(old(self)@, c.session_id@, c.name@, c.room@),
    {
        self.directory.upsert(c.room.as_str(), c.session_id.as_str(), c.name.as_str());
    }

    /// Handles `quit_room:`.
    pub fn on_quit(&mut self, c: RoomChange)
        ensures
            final(self)@ == after_quit(old(self)@, c.session_id@, c.room@),
    {
        let own = match &self.session_id {
            Some(s) => same_text(s, &c.session_id),
            None => false,
        };
        if own {
            self.directory.remove_room(c.room.as_str());
        } else {
            self.directory.remove_session(c.room.as_str(), c.session_id.as_str());
        }
    }

    /// Handles `update_name:`.
    pub fn on_rename(&mut self, u: UpdateName)
        ensures
            final(self)@ == after_rename(old(self)@, u.session_id@, u.name@),
    {
        self.directory.rename_everywhere(u.session_id.as_str(), u.name.as_str());
    }

    /// Handles one decoded inbound frame.
    pub fn apply_frame(&mut self, frame: Frame)
        ensures
            frame_applied(old(self)@, frame, final(self)@, final(self)@.notices.last().id),
    {
        match frame {
            Frame::Message(m) => self.on_message(m),
            Frame::UpdateSession(u) => self.on_update_session(u),
            Frame::List(d) => self.on_list(d),
            Frame::JoinRoom(c) => self.on_join(c),
            Frame::QuitRoom(c) => self.on_quit(c),
            Frame::UpdateName(u) => self.on_rename(u),
        }
    }

    /// Opens the dialog on `room` and clears every notice.
    pub fn open_dialog(&mut self, room: &str)
        ensures
            final(self)@ == (SyncView {
                active_room: Some(room@),
                notices: Seq::empty(),
                ..old(self)@
            }),
    {
        self.active_room = Some(room.to_owned());
        self.notices.clear_all();
    }

    /// Closes the dialog.
    pub fn close_dialog(&mut self)
        ensures
            final(self)@ == (SyncView { active_room: None, ..old(self)@ }),
    {
        self.active_room = None;
    }

    /// Moves the open dialog to `room`; notices stay.
    pub fn switch_room(&mut self, room: &str)
        ensures
            final(self)@ == (SyncView { active_room: Some(room@), ..old(self)@ }),
    {
        self.active_room = Some(room.to_owned());
    }

    /// Dismisses the notices that carry `id`.
    pub fn dismiss(&mut self, id: u128)
        ensures
            final(self)@ == (SyncView { notices: without_id(old(self)@.notices, id), ..old(self)@ }),
    {
        self.notices.dismiss(id);
    }

    /// What to write for chat text `content` typed into the open dialog:
    /// nothing where the text is blank or no dialog is open.
    pub fn send_chat(&self, content: &str) -> (r: Option<Outbound>)
        ensures
            r is None <==> (is_blank(content@) || self@.active_room is None),
            r matches Some(o) ==> o.text@ == content@ && opt_view(o.room) == self@.active_room,
    {
        if blank(content) {
            return None;
        }
        match &self.active_room {
            Some(room) => Some(Outbound { text: content.to_owned(), room: Some(room.clone()) }),
            None => None,
        }
    }

    /// Logs a chat message once its write succeeded.
    pub fn record_sent(&mut self, sent: Outbound)
        ensures
            sent.room is None ==> final(self)@ == old(self)@,
            sent.room matches Some(room) ==> {
                let log = final(self)@.history[room@];
                &&& final(self)@ == (SyncView {
                    history: old(self)@.history.insert(room@, log),
                    ..old(self)@
                })
                &&& log.drop_last() == log_or_empty(old(self)@.history, room@)
                &&& log.len() == log_or_empty(old(self)@.history, room@).len() + 1
                &&& own_record(log.last(), room@, sent.text@, old(self)@.session_id)
            },
    {
        match sent.room {
            Some(room) => {
                let from_name = match &self.session_id {
                    Some(s) => s.clone(),
                    None => String::new(),
                };
                let record = MessageContent {
                    id: 0,
                    room: room.clone(),
                    from_id: String::new(),
                    from_name,
                    content: sent.text,
                    time: String::new(),
                    is_own: Some(()),
                };
                let ghost pre = self.history@;
                self.history.append(room.as_str(), record);
                assert(self.history@[room@].drop_last() =~= log_or_empty(pre, room@));
            },
            None => {},
        }
    }

    /// Reports a failed write as an error notice.
    pub fn record_send_failure(&mut self, detail: &str)
        ensures
            final(self)@ == (SyncView {
                notices: old(self)@.notices.push(
                    NoticeView {
                        id: final(self)@.notices.last().id,
                        kind: MessageItemType::Danger,
                        label: "Error"@,
                        content: detail@,
                        from: None,
                        from_id: None,
                        timeout: None,
                    },
                ),
                ..old(self)@
            }),
    {
        self.notices.push(error(detail));
    }
}

} // verus!
