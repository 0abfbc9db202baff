//! Per-room chat logs, in order of arrival.

use vstd::prelude::*;
use crate::table::Table;

verus! {

/// One chat message.
#[derive(Clone, Debug, PartialEq)]
pub struct MessageContent {
    pub id: u128,
    pub room: String,
    pub from_id: String,
    pub from_name: String,
    pub content: String,
    pub time: String,
    pub is_own: Option<()>,
}

impl MessageContent {
    /// A field-by-field copy.
    pub fn duplicate(&self) -> (r: Self)
        ensures
            r == *self,
    {
        MessageContent {
            id: self.id,
            room: self.room.clone(),
            from_id: self.from_id.clone(),
            from_name: self.from_name.clone(),
            content: self.content.clone(),
            time: self.time.clone(),
            is_own: self.is_own,
        }
    }
}

/// The log of `room` in `logs`, empty where the room has none.
pub open spec fn log_or_empty(
    logs: Map<Seq<char>, Seq<MessageContent>>,
    room: Seq<char>,
) -> Seq<MessageContent> {
    if logs.contains_key(room) {
        logs[room]
    } else {
        Seq::empty()
    }
}

/// The transcript line of one message: `"{from_name}: {content}\n\n"`.
pub open spec fn transcript_line(m: MessageContent) -> Seq<char> {
    m.from_name@ + ": "@ + m.content@ + "\n\n"@
}

/// The lines of all messages of `log`, in order.
pub open spec fn transcript_of(log: Seq<MessageContent>) -> Seq<char>
    decreases log.len(),
{
    if log.len() == 0 {
        Seq::empty()
    } else {
        transcript_of(log.drop_last()) + transcript_line(log.last())
    }
}

/// The chat logs of all rooms.
pub struct History {
    logs: Table<Vec<MessageContent>>,
}

impl View for History {
    type V = Map<Seq<char>, Seq<MessageContent>>;

    closed spec fn view(&self) -> Map<Seq<char>, Seq<MessageContent>> {
        self.logs@.map_values(|v: Vec<MessageContent>| v@)
    }
}

impl History {
    pub fn new() -> (r: Self)
        ensures
            r@ == Map::<Seq<char>, Seq<MessageContent>>::empty(),
    {
        let r = History { logs: Table::new() };
        assert(r@ =~= Map::<Seq<char>, Seq<MessageContent>>::empty());
        r
    }

    /// Adds `message` at the end of the log of `room`.
    pub fn append(&mut self, room: &str, message: MessageContent)
        ensures
            final(self)@ == old(self)@.insert(room@, log_or_empty(old(self)@, room@).push(message)),
    {
        let mut log = match self.logs.remove(room) {
            Some(v) => v,
            None => Vec::new(),
        };
        log.push(message);
        self.logs.insert(room.to_owned(), log);
        assert(self@ =~= old(self)@.insert(room@, log_or_empty(old(self)@, room@).push(message)));
    }

    /// Number of messages in the log of `room`.
    pub fn count(&self, room: &str) -> (r: usize)
        ensures
            r == log_or_empty(self@, room@).len(),
    {
        match self.logs.get(room) {
            Some(v) => v.len(),
            None => 0,
        }
    }

    /// A copy of the log of `room`, empty where the room has none.
    pub fn get(&self, room: &str) -> (r: Vec<MessageContent>)
        ensures
            r@ == log_or_empty(self@, room@),
    {
        let mut r: Vec<MessageContent> = Vec::new();
        match self.logs.get(room) {
            Some(v) => {
                let mut i: usize = 0;
                while i < v.len()
                    invariant
                        i <= v@.len(),
                        r@ == v@.subrange(0, i as int),
                    decreases v@.len() - i,
                {
                    r.push(v[i].duplicate());
                    i = i + 1;
                    assert(r@ =~= v@.subrange(0, i as int));
                }
                assert(r@ =~= v@);
            },
            None => {},
        }
        r
    }

    /// The log of `room` as text, one `"{from_name}: {content}\n\n"` per message.
    pub fn transcript(&self, room: &str) -> (r: String)
        ensures
            r@ == transcript_of(log_or_empty(self@, room@)),
    {
        let mut out = String::new();
        match self.logs.get(room) {
            Some(v) => {
                let mut i: usize = 0;
                while i < v.len()
                    invariant
                        i <= v@.len(),
                        out@ == transcript_of(v@.subrange(0, i as int)),
                    decreases v@.len() - i,
                {
                    let m = &v[i];
                    out.append(m.from_name.as_str());
                    out.append(": ");
                    out.append(m.content.as_str());
                    out.append("\n\n");
                    assert(v@.subrange(0, i + 1).drop_last() =~= v@.subrange(0, i as int));
                    i = i + 1;
                }
                assert(v@.subrange(0, v@.len() as int) =~= v@);
            },
            None => {},
        }
        out
    }
}

} // verus!
