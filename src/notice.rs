//! Ephemeral notices shown in a stack, some of them expiring on their own.

use vstd::prelude::*;

verus! {

/// The look of a notice; `Primary` marks a chat preview.
#[derive(Clone, Copy, Debug, PartialEq, Eq, Structural)]
pub enum MessageItemType {
    Dark,
    Primary,
    Link,
    Info,
    Success,
    Warning,
    Danger,
}

/// What a notice holds, over plain values.
pub struct NoticeView {
    pub id: u128,
    pub kind: MessageItemType,
    pub label: Seq<char>,
    pub content: Seq<char>,
    pub from: Option<Seq<char>>,
    pub from_id: Option<Seq<char>>,
    pub timeout: Option<u32>,
}

/// One notice. `room` is its heading: a room name for a chat preview, the
/// kind's name otherwise. `timeout` is its lifetime in seconds, if it expires.
#[derive(Clone, Debug, PartialEq)]
pub struct MessageItemValue {
    pub id: u128,
    pub from_id: Option<String>,
    pub from: Option<String>,
    pub content: String,
    pub room: String,
    pub kind: MessageItemType,
    pub timeout: Option<u32>,
}

pub open spec fn opt_view(o: Option<String>) -> Option<Seq<char>> {
    match o {
        Some(s) => Some(s@),
        None => None,
    }
}

pub open spec fn opt_str_view(o: Option<&str>) -> Option<Seq<char>> {
    match o {
        Some(s) => Some(s@),
        None => None,
    }
}

impl View for MessageItemValue {
    type V = NoticeView;

    open spec fn view(&self) -> NoticeView {
        NoticeView {
            id: self.id,
            kind: self.kind,
            label: self.room@,
            content: self.content@,
            from: opt_view(self.from),
            from_id: opt_view(self.from_id),
            timeout: self.timeout,
        }
    }
}

fn owned(o: Option<&str>) -> (r: Option<String>)
    ensures
        opt_view(r) == opt_str_view(o),
{
    match o {
        Some(s) => Some(s.to_owned()),
        None => None,
    }
}

/// Relies on uuid::Uuid::new_v4, a random version-4 identifier, read as an
/// integer with Uuid::as_u128. Nothing is known of the value.
#[verifier::external_body]
fn fresh_id() -> (r: u128) {
    uuid::Uuid::new_v4().as_u128()
}

impl MessageItemValue {
    /// A notice with the given identifier and contents.
    pub fn with_id(
        id: u128,
        kind: MessageItemType,
        room: &str,
        content: &str,
        timeout: Option<u32>,
        from: Option<&str>,
        from_id: Option<&str>,
    ) -> (r: Self)
        ensures
            r@ == (NoticeView {
                id,
                kind,
                label: room@,
                content: content@,
                from: opt_str_view(from),
                from_id: opt_str_view(from_id),
                timeout,
            }),
    {
        MessageItemValue {
            id,
            kind,
            room: room.to_owned(),
            content: content.to_owned(),
            from_id: owned(from_id),
            from: owned(from),
            timeout,
        }
    }

    /// A notice with a fresh random identifier and the given contents.
    pub fn new(
        kind: MessageItemType,
        room: &str,
        content: &str,
        timeout: Option<u32>,
        from: Option<&str>,
        from_id: Option<&str>,
    ) -> (r: Self)
        ensures
            r@ == (NoticeView {
                id: r.id,
                kind,
                label: room@,
                content: content@,
                from: opt_str_view(from),
                from_id: opt_str_view(from_id),
                timeout,
            }),
    {
        Self::with_id(fresh_id(), kind, room, content, timeout, from, from_id)
    }
}

/// A success notice that expires after five seconds.
pub fn ok(msg: &str) -> (r: MessageItemValue)
    ensures
        r@ == (NoticeView {
            id: r.id,
            kind: MessageItemType::Success,
            label: "Success"@,
            content: msg@,
            from: None,
            from_id: None,
            timeout: Some(5),
        }),
{
    MessageItemValue::new(MessageItemType::Success, "Success", msg, Some(5), None, None)
}

/// A warning that expires after ten seconds.
pub fn warn(msg: &str) -> (r: MessageItemValue)
    ensures
        r@ == (NoticeView {
            id: r.id,
            kind: MessageItemType::Warning,
            label: "Warning"@,
            content: msg@,
            from: None,
            from_id: None,
            timeout: Some(10),
        }),
{
    MessageItemValue::new(MessageItemType::Warning, "Warning", msg, Some(10), None, None)
}

/// An informational notice that expires after eight seconds.
pub fn info(msg: &str) -> (r: MessageItemValue)
    ensures
        r@ == (NoticeView {
            id: r.id,
            kind: MessageItemType::Info,
            label: "Info"@,
            content: msg@,
            from: None,
            from_id: None,
            timeout: Some(8),
        }),
{
    MessageItemValue::new(MessageItemType::Info, "Info", msg, Some(8), None, None)
}

/// An error notice; it stays until dismissed.
pub fn error(msg: &str) -> (r: MessageItemValue)
    ensures
        r@ == (NoticeView {
            id: r.id,
            kind: MessageItemType::Danger,
            label: "Error"@,
            content: msg@,
            from: None,
            from_id: None,
            timeout: None,
        }),
{
    MessageItemValue::new(MessageItemType::Danger, "Error", msg, None, None, None)
}

/// A chat preview headed by its room; it stays until dismissed, and
/// selecting it opens the dialog for that room.
pub fn message(room: &str, from_id: &str, from_name: &str, content: &str) -> (r: MessageItemValue)
    ensures
        r@ == (NoticeView {
            id: r.id,
            kind: MessageItemType::Primary,
            label: room@,
            content: content@,
            from: Some(from_name@),
            from_id: Some(from_id@),
            timeout: None,
        }),
{
    MessageItemValue::new(
        MessageItemType::Primary,
        room,
        content,
        None,
        Some(from_name),
        Some(from_id),
    )
}

/// `queue` without the notices that carry `id`, order kept.
pub open spec fn without_id(queue: Seq<NoticeView>, id: u128) -> Seq<NoticeView>
    decreases queue.len(),
{
    if queue.len() == 0 {
        queue
    } else {
        let rest = without_id(queue.drop_last(), id);
        if queue.last().id == id {
            rest
        } else {
            rest.push(queue.last())
        }
    }
}

/// Dismissing an id twice leaves the queue as dismissing it once did, and
/// dismissing an id that no notice carries leaves the queue unchanged.
pub proof fn lemma_dismiss_idempotent(queue: Seq<NoticeView>, id: u128)
    ensures
        without_id(without_id(queue, id), id) == without_id(queue, id),
        (forall|i: int| 0 <= i < queue.len() ==> #[trigger] queue[i].id != id) ==> without_id(
            queue,
            id,
        ) == queue,
    decreases queue.len(),
{
    if queue.len() > 0 {
        lemma_dismiss_idempotent(queue.drop_last(), id);
        let rest = without_id(queue.drop_last(), id);
        if queue.last().id != id {
            assert(rest.push(queue.last()).drop_last() =~= rest);
        }
        if forall|i: int| 0 <= i < queue.len() ==> #[trigger] queue[i].id != id {
            assert forall|i: int| 0 <= i < queue.drop_last().len() implies #[trigger] queue.drop_last()[i].id
                != id by {
                assert(queue.drop_last()[i] == queue[i]);
            }
            assert(queue[queue.len() - 1].id != id);
            assert(queue.drop_last().push(queue.last()) =~= queue);
        }
    }
}

/// The plain contents of a sequence of notices.
pub open spec fn views(s: Seq<MessageItemValue>) -> Seq<NoticeView> {
    s.map_values(|v: MessageItemValue| v@)
}

/// The notices on display, oldest first.
pub struct NotificationQueue {
    items: Vec<MessageItemValue>,
}

impl View for NotificationQueue {
    type V = Seq<NoticeView>;

    closed spec fn view(&self) -> Seq<NoticeView> {
        views(self.items@)
    }
}

impl NotificationQueue {
    pub fn new() -> (r: Self)
        ensures
            r@ == Seq::<NoticeView>::empty(),
    {
        let r = NotificationQueue { items: Vec::new() };
        assert(r@ =~= Seq::<NoticeView>::empty());
        r
    }

    /// Number of notices.
    pub fn len(&self) -> (r: usize)
        ensures
            r == self@.len(),
    {
        self.items.len()
    }

    /// The notices, oldest first.
    pub fn items(&self) -> (r: &Vec<MessageItemValue>)
        ensures
            views(r@) == self@,
    {
        &self.items
    }

    /// Adds `notice` at the end; returns its identifier.
    pub fn push(&mut self, notice: MessageItemValue) -> (r: u128)
        ensures
            final(self)@ == old(self)@.push(notice@),
            r == notice.id,
    {
        let id = notice.id;
        self.items.push(notice);
        assert(self@ =~= old(self)@.push(notice@));
        id
    }

    /// Removes the notices that carry `id`; nothing happens where none does.
    pub fn dismiss(&mut self, id: u128)
        ensures
            final(self)@ == without_id(old(self)@, id),
    {
        let mut rest: Vec<MessageItemValue> = Vec::new();
        std::mem::swap(&mut self.items, &mut rest);
        let ghost all = old(self)@;
        let ghost n = all.len();
        let ghost mut taken: int = 0;
        while rest.len() > 0
            invariant
                n == all.len(),
                0 <= taken,
                taken + rest@.len() == n,
                views(rest@) == all.subrange(taken, n as int),
                self@ == without_id(all.subrange(0, taken), id),
            decreases rest@.len(),
        {
            let ghost before = rest@;
            let item = rest.remove(0);
            assert(rest@ =~= before.subrange(1, before.len() as int));
            proof {
                assert(all.subrange(taken, n as int)[0] == all[taken]);
                assert(item@ == all[taken]);
                assert(all.subrange(0, taken + 1).drop_last() =~= all.subrange(0, taken));
            }
            if item.id != id {
                self.items.push(item);
            }
            proof {
                taken = taken + 1;
            }
            assert forall|j: int| 0 <= j < rest@.len() implies views(rest@)[j] == all[taken + j] by {
                assert(rest@[j] == before[j + 1]);
                assert(views(before)[j + 1] == all.subrange(taken - 1, n as int)[j + 1]);
            }
            assert(views(rest@) =~= all.subrange(taken, n as int));
            assert(self@ =~= without_id(all.subrange(0, taken), id));
        }
        assert(all.subrange(0, n as int) =~= all);
    }

    /// Removes every notice.
    pub fn clear_all(&mut self)
        ensures
            final(self)@ == Seq::<NoticeView>::empty(),
    {
        self.items.clear();
        assert(self@ =~= Seq::<NoticeView>::empty());
    }
}

} // verus!
