//! Room membership: for each room, the sessions in it and their display names.

use vstd::prelude::*;
use crate::table::Table;

verus! {

/// A roster after renaming `session` to `name`, where it is listed.
pub open spec fn renamed(
    roster: Map<Seq<char>, Seq<char>>,
    session: Seq<char>,
    name: Seq<char>,
) -> Map<Seq<char>, Seq<char>> {
    if roster.contains_key(session) {
        roster.insert(session, name)
    } else {
        roster
    }
}

/// The roster of `room` in `dir`, empty where the room is not listed.
pub open spec fn roster_or_empty(
    dir: Map<Seq<char>, Map<Seq<char>, Seq<char>>>,
    room: Seq<char>,
) -> Map<Seq<char>, Seq<char>> {
    if dir.contains_key(room) {
        dir[room]
    } else {
        Map::empty()
    }
}

/// The sessions of one room, each with its display name.
pub struct Roster {
    names: Table<String>,
}

impl View for Roster {
    type V = Map<Seq<char>, Seq<char>>;

    closed spec fn view(&self) -> Map<Seq<char>, Seq<char>> {
        self.names@.map_values(|s: String| s@)
    }
}

impl Roster {
    pub fn new() -> (r: Self)
        ensures
            r@ == Map::<Seq<char>, Seq<char>>::empty(),
    {
        let r = Roster { names: Table::new() };
        assert(r@ =~= Map::<Seq<char>, Seq<char>>::empty());
        r
    }

    /// Number of sessions listed.
    pub fn len(&self) -> (r: usize)
        ensures
            r == self@.dom().len(),
    {
        let r = self.names.len();
        assert(self@.dom() =~= self.names@.dom());
        r
    }

    /// Whether `session` is listed.
    pub fn contains(&self, session: &str) -> (r: bool)
        ensures
            r == self@.contains_key(session@),
    {
        self.names.contains(session)
    }

    /// The display name of `session`, if it is listed.
    pub fn name_of(&self, session: &str) -> (r: Option<String>)
        ensures
            r is Some <==> self@.contains_key(session@),
            r matches Some(n) ==> n@ == self@[session@],
    {
        match self.names.get(session) {
            Some(n) => Some(n.clone()),
            None => None,
        }
    }

    /// Lists `session` under `name`, replacing an earlier name.
    pub fn insert(&mut self, session: String, name: String)
        ensures
            final(self)@ == old(self)@.insert(session@, name@),
    {
        let ghost k = session@;
        let ghost n = name@;
        self.names.insert(session, name);
        assert(self@ =~= old(self)@.insert(k, n));
    }

    /// Drops `session`; reports whether it was listed.
    pub fn remove(&mut self, session: &str) -> (r: bool)
        ensures
            final(self)@ == old(self)@.remove(session@),
            r == old(self)@.contains_key(session@),
    {
        let r = self.names.remove(session);
        assert(self@ =~= old(self)@.remove(session@));
        r.is_some()
    }

    /// Renames `session` to `name` if it is listed.
    pub fn rename(&mut self, session: &str, name: &str)
        ensures
            final(self)@ == renamed(old(self)@, session@, name@),
    {
        if self.contains(session) {
            self.insert(session.to_owned(), name.to_owned());
        }
    }

    /// The sessions listed, each once, with their display names.
    pub fn members(&self) -> (r: Vec<(String, String)>)
        ensures
            r@.len() == self@.dom().len(),
            forall|i: int|
                0 <= i < r@.len() ==> self@.contains_key(#[trigger] r@[i].0@) && self@[r@[i].0@]
                    == r@[i].1@,
            forall|k: Seq<char>|
                self@.contains_key(k) ==> exists|i: int| 0 <= i < r@.len() && #[trigger] r@[i].0@ == k,
    {
        let keys = self.names.keys();
        let mut r: Vec<(String, String)> = Vec::new();
        let mut i: usize = 0;
        while i < keys.len()
            invariant
                i <= keys@.len(),
                r@.len() == i,
                forall|k: Seq<char>|
                    self.names@.contains_key(k) <==> exists|j: int|
                        0 <= j < keys@.len() && #[trigger] keys@[j]@ == k,
                forall|j: int| 0 <= j < i ==> #[trigger] r@[j].0@ == keys@[j]@,
                forall|j: int|
                    0 <= j < i ==> self@.contains_key(#[trigger] r@[j].0@) && self@[r@[j].0@]
                        == r@[j].1@,
            decreases keys@.len() - i,
        {
            let key = &keys[i];
            assert(self.names@.contains_key(keys@[i as int]@));
            match self.names.get(key.as_str()) {
                Some(n) => {
                    r.push((key.clone(), n.clone()));
                },
                None => {},
            }
            i = i + 1;
        }
        assert forall|k: Seq<char>| self@.contains_key(k) implies exists|i: int|
            0 <= i < r@.len() && #[trigger] r@[i].0@ == k by {
            let j = choose|j: int| 0 <= j < keys@.len() && #[trigger] keys@[j]@ == k;
            assert(r@[j].0@ == k);
        }
        assert(self@.dom() =~= self.names@.dom());
        r
    }
}

/// Which sessions are in which room.
pub struct Directory {
    rooms: Table<Roster>,
}

impl View for Directory {
    type V = Map<Seq<char>, Map<Seq<char>, Seq<char>>>;

    closed spec fn view(&self) -> Map<Seq<char>, Map<Seq<char>, Seq<char>>> {
        self.rooms@.map_values(|r: Roster| r@)
    }
}

impl Directory {
    pub fn new() -> (r: Self)
        ensures
            r@ == Map::<Seq<char>, Map<Seq<char>, Seq<char>>>::empty(),
    {
        let r = Directory { rooms: Table::new() };
        assert(r@ =~= Map::<Seq<char>, Map<Seq<char>, Seq<char>>>::empty());
        r
    }

    /// Lists `room` with the given roster, replacing what it held.
    pub fn insert_room(&mut self, room: String, roster: Roster)
        ensures
            final(self)@ == old(self)@.insert(room@, roster@),
    {
        let ghost k = room@;
        let ghost v = roster@;
        self.rooms.insert(room, roster);
        assert(self@ =~= old(self)@.insert(k, v));
    }

    /// Replaces the whole directory.
    pub fn replace(&mut self, other: Directory)
        ensures
            final(self)@ == other@,
    {
        *self = other;
    }

    /// Lists `session` in `room` under `name`, creating the room if needed.
    pub fn upsert(&mut self, room: &str, session: &str, name: &str)
        ensures
            final(self)@ == old(self)@.insert(
                room@,
                roster_or_empty(old(self)@, room@).insert(session@, name@),
            ),
    {
        let mut roster = match self.rooms.remove(room) {
            Some(r) => r,
            None => Roster::new(),
        };
        roster.insert(session.to_owned(), name.to_owned());
        self.insert_room(room.to_owned(), roster);
        assert(self@ =~= old(self)@.insert(
            room@,
            roster_or_empty(old(self)@, room@).insert(session@, name@),
        ));
    }

    /// Drops `session` from `room`; the room stays listed.
    pub fn remove_session(&mut self, room: &str, session: &str)
        ensures
            old(self)@.contains_key(room@) ==> final(self)@ == old(self)@.insert(
                room@,
                old(self)@[room@].remove(session@),
            ),
            !old(self)@.contains_key(room@) ==> final(self)@ == old(self)@,
    {
        match self.rooms.remove(room) {
            Some(mut roster) => {
                roster.remove(session);
                self.insert_room(room.to_owned(), roster);
                assert(self@ =~= old(self)@.insert(room@, old(self)@[room@].remove(session@)));
            },
            None => {
                assert(self@ =~= old(self)@);
            },
        }
    }

    /// Drops `room` and everything listed in it.
    pub fn remove_room(&mut self, room: &str)
        ensures
            final(self)@ == old(self)@.remove(room@),
    {
        self.rooms.remove(room);
        assert(self@ =~= old(self)@.remove(room@));
    }

    /// Renames `session` to `name` in every room that lists it.
    pub fn rename_everywhere(&mut self, session: &str, name: &str)
        ensures
            final(self)@ == old(self)@.map_values(
                |r: Map<Seq<char>, Seq<char>>| renamed(r, session@, name@),
            ),
    {
        let mut rest = Table::new();
        std::mem::swap(&mut self.rooms, &mut rest);
        proof {
            use_type_invariant(&rest);
            rest.lemma_finite();
        }
        loop
            invariant
                rest@.dom().finite(),
                forall|k: Seq<char>|
                    #[trigger] old(self)@.contains_key(k) <==> (rest@.contains_key(k)
                        || self.rooms@.contains_key(k)),
                forall|k: Seq<char>|
                    #[trigger] rest@.contains_key(k) ==> !self.rooms@.contains_key(k)
                        && rest@[k]@ == old(self)@[k],
                forall|k: Seq<char>|
                    #[trigger] self.rooms@.contains_key(k) ==> self.rooms@[k]@ == renamed(old(self)@[k], session@, name@),
            ensures
                rest@.dom().finite(),
                rest@.dom().len() == 0,
            decreases rest@.dom().len(),
        {
            match rest.pop_entry() {
                Some((room, mut roster)) => {
                    roster.rename(session, name);
                    self.rooms.insert(room, roster);
                },
                None => {
                    break;
                },
            }
        }
        proof {
            rest@.dom().lemma_len0_is_empty();
        }
        assert(self@ =~= old(self)@.map_values(
            |r: Map<Seq<char>, Seq<char>>| renamed(r, session@, name@),
        ));
    }

    /// The rooms listed, each once.
    pub fn list_rooms(&self) -> (r: Vec<String>)
        ensures
            r@.len() == self@.dom().len(),
            forall|k: Seq<char>|
                self@.contains_key(k) <==> exists|i: int| 0 <= i < r@.len() && #[trigger] r@[i]@ == k,
    {
        let r = self.rooms.keys();
        assert(self@.dom() =~= self.rooms@.dom());
        r
    }

    /// The roster of `room`, if it is listed.
    pub fn roster_of(&self, room: &str) -> (r: Option<&Roster>)
        ensures
            r is Some <==> self@.contains_key(room@),
            r matches Some(x) ==> x@ == self@[room@],
    {
        self.rooms.get(room)
    }
}

} // verus!
