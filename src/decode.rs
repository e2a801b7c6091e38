//! Decoding stored rows into entity values: identifiers are stored as text,
//! a team's members as one comma-separated list, an event's type as a tag
//! with an optional team size.
use vstd::prelude::*;
use crate::error::VaderError;
use crate::ids::{parse_id, uuid_text_value};
use crate::model::{EventInfo, EventType, Team, TeamInfo, User};

verus! {

/// The pieces of a text between its commas, in order; a text without a
/// comma is a single piece.
pub open spec fn comma_pieces(s: Seq<char>) -> Seq<Seq<char>>
    decreases s.len(),
{
    if s.len() == 0 {
        seq![Seq::<char>::empty()]
    } else {
        let front = comma_pieces(s.drop_last());
        if s.last() == ',' {
            front.push(Seq::<char>::empty())
        } else {
            front.update(front.len() - 1, front.last().push(s.last()))
        }
    }
}

/// Whether every piece is an identifier.
pub open spec fn all_ids(pieces: Seq<Seq<char>>) -> bool {
    forall|j: int| 0 <= j < pieces.len() ==> #[trigger] uuid_text_value(pieces[j]) is Some
}

/// Whether `ids` are the identifiers the pieces spell, in order.
pub open spec fn spells(ids: Seq<u128>, pieces: Seq<Seq<char>>) -> bool {
    &&& ids.len() == pieces.len()
    &&& forall|j: int| 0 <= j < pieces.len() ==> #[trigger] ids[j] == uuid_text_value(pieces[j])->Some_0
}

/// The identifiers of a comma-separated list, if every piece is one.
pub fn parse_id_list(s: &str) -> (r: Option<Vec<u128>>)
    ensures
        r is Some <==> all_ids(comma_pieces(s@)),
        r is Some ==> spells(r->Some_0@, comma_pieces(s@)),
{
    let n = s.unicode_len();
    let mut ids: Vec<u128> = Vec::new();
    let mut ok = true;
    let mut start: usize = 0;
    let mut i: usize = 0;
    let ghost mut done: Seq<Seq<char>> = Seq::empty();
    assert(s@.subrange(0, 0) =~= Seq::<char>::empty());
    assert(s@.subrange(0, 0).len() == 0);
    assert(done.push(s@.subrange(0, 0)) =~= seq![Seq::<char>::empty()]);
    while i < n
        invariant
            n == s@.len(),
            start <= i <= n,
            comma_pieces(s@.subrange(0, i as int)) == done.push(s@.subrange(start as int, i as int)),
            ok <==> all_ids(done),
            ok ==> spells(ids@, done),
        decreases n - i,
    {
        let c = s.get_char(i);
        let ghost pre = s@.subrange(0, i as int);
        let ghost d0 = done;
        let ghost st0 = start;
        assert(s@.subrange(0, i + 1).drop_last() =~= pre);
        assert(s@.subrange(0, i + 1).last() == c);
        if c == ',' {
            let piece = s.substring_char(start, i);
            proof {
                done = done.push(piece@);
            }
            if ok {
                match parse_id(piece) {
                    Some(v) => {
                        ids.push(v);
                        assert(spells(ids@, done)) by {
                            assert forall|j: int| 0 <= j < done.len() implies #[trigger] ids@[j]
                                == uuid_text_value(done[j])->Some_0 by {
                                if j < d0.len() {
                                    assert(done[j] == d0[j]);
                                }
                            }
                        }
                        assert(all_ids(done)) by {
                            assert forall|j: int| 0 <= j < done.len() implies #[trigger] uuid_text_value(
                                done[j],
                            ) is Some by {
                                if j < d0.len() {
                                    assert(done[j] == d0[j]);
                                }
                            }
                        }
                    },
                    None => {
                        ok = false;
                        assert(uuid_text_value(done[done.len() - 1]) is None);
                    },
                }
            } else {
                assert(!all_ids(done)) by {
                    let j = choose|j: int| 0 <= j < d0.len() && !(uuid_text_value(d0[j]) is Some);
                    assert(done[j] == d0[j]);
                }
            }
            start = i + 1;
            assert(s@.subrange(start as int, i + 1) =~= Seq::<char>::empty());
        } else {
            assert(s@.subrange(st0 as int, i + 1) =~= s@.subrange(st0 as int, i as int).push(c));
            assert(d0.push(s@.subrange(st0 as int, i as int)).update(d0.len() as int, s@.subrange(st0 as int, i + 1)) =~= d0.push(s@.subrange(st0 as int, i + 1)));
        }
        i = i + 1;
    }
    assert(s@.subrange(0, n as int) =~= s@);
    let last = s.substring_char(start, n);
    let ghost pieces = done.push(last@);
    if !ok {
        assert(!all_ids(pieces)) by {
            let j = choose|j: int| 0 <= j < done.len() && !(uuid_text_value(done[j]) is Some);
            assert(pieces[j] == done[j]);
        }
        return None;
    }
    match parse_id(last) {
        None => {
            assert(uuid_text_value(pieces[pieces.len() - 1]) is None);
            None
        },
        Some(v) => {
            let ghost d0 = ids@;
            ids.push(v);
            assert forall|j: int| 0 <= j < pieces.len() implies #[trigger] uuid_text_value(
                pieces[j],
            ) is Some && ids@[j] == uuid_text_value(pieces[j])->Some_0 by {
                if j < done.len() {
                    assert(pieces[j] == done[j]);
                    assert(ids@[j] == d0[j]);
                }
            }
            Some(ids)
        },
    }
}

/// Whether two texts are the same.
fn same_text(a: &str, b: &str) -> (r: bool)
    ensures
        r == (a@ == b@),
{
    let n = a.unicode_len();
    let m = b.unicode_len();
    if n != m {
        return false;
    }
    let mut i: usize = 0;
    while i < n
        invariant
            n == a@.len(),
            n == b@.len(),
            i <= n,
            forall|j: int| 0 <= j < i ==> a@[j] == b@[j],
        decreases n - i,
    {
        if a.get_char(i) != b.get_char(i) {
            return false;
        }
        i = i + 1;
    }
    assert(a@ =~= b@);
    true
}

/// The tag an event type is stored under.
pub open spec fn stored_tag(t: EventType) -> Seq<char> {
    match t {
        EventType::TeamEvent { .. } => "team_event"@,
        EventType::UserEvent => "user_event"@,
    }
}

/// The event type a stored tag and team size stand for, if any.
pub open spec fn stored_event_type(tag: Seq<char>, team_size: Option<u32>) -> Option<EventType> {
    if tag == "team_event"@ {
        match team_size {
            Some(n) => Some(EventType::TeamEvent { team_size: n }),
            None => None,
        }
    } else if tag == "user_event"@ {
        Some(EventType::UserEvent)
    } else {
        None
    }
}

impl EventType {
    /// The tag this type is stored under; the team size is stored beside it.
    pub fn stored_tag(&self) -> (r: &'static str)
        ensures
            r@ == stored_tag(*self),
    {
        match self {
            EventType::TeamEvent { .. } => "team_event",
            EventType::UserEvent => "user_event",
        }
    }

    /// The event type a stored tag and team size stand for.
    pub fn from_stored(tag: &str, team_size: Option<u32>) -> (r: Option<EventType>)
        ensures
            r == stored_event_type(tag@, team_size),
    {
        if same_text(tag, "team_event") {
            match team_size {
                Some(n) => Some(EventType::TeamEvent { team_size: n }),
                None => None,
            }
        } else if same_text(tag, "user_event") {
            Some(EventType::UserEvent)
        } else {
            None
        }
    }
}

/// A stored type reads back as the type that was stored.
pub proof fn stored_type_reads_back(t: EventType)
    ensures
        stored_event_type(stored_tag(t), t.size_of()) == Some(t),
{
    reveal_strlit("team_event");
    reveal_strlit("user_event");
    assert("team_event"@ != "user_event"@) by {
        assert("team_event"@[0] != "user_event"@[0]);
    }
}

impl EventInfo {
    /// An event row: identifier, name, logo, type tag and team size.
    pub fn from_columns(
        id: &str,
        name: String,
        logo: Option<String>,
        tag: &str,
        team_size: Option<u32>,
    ) -> (r: Result<EventInfo, VaderError>)
        ensures
            r is Ok <==> uuid_text_value(id@) is Some && stored_event_type(tag@, team_size) is Some,
            r is Err ==> r->Err_0 == VaderError::FieldDecode,
            r is Ok ==> r->Ok_0.id == uuid_text_value(id@)->Some_0 && r->Ok_0.name == name
                && r->Ok_0.logo == logo && r->Ok_0.event_type == stored_event_type(
                tag@,
                team_size,
            )->Some_0,
    {
        let id = match parse_id(id) {
            Some(v) => v,
            None => {
                return Err(VaderError::FieldDecode);
            },
        };
        match EventType::from_stored(tag, team_size) {
            Some(event_type) => Ok(EventInfo { id, name, logo, event_type }),
            None => Err(VaderError::FieldDecode),
        }
    }
}

impl Team {
    /// A team row with the comma-separated identifiers of its members; an
    /// empty list is a team without members.
    pub fn from_columns(
        id: &str,
        name: String,
        score: i64,
        logo: Option<String>,
        team_members: &str,
    ) -> (r: Result<Team, VaderError>)
        ensures
            r is Ok <==> uuid_text_value(id@) is Some && (team_members@.len() == 0 || all_ids(
                comma_pieces(team_members@),
            )),
            r is Err ==> r->Err_0 == VaderError::FieldDecode,
            r is Ok ==> r->Ok_0.id == uuid_text_value(id@)->Some_0 && r->Ok_0.name == name
                && r->Ok_0.score == score && r->Ok_0.logo == logo,
            r is Ok && team_members@.len() == 0 ==> r->Ok_0.members@.len() == 0,
            r is Ok && team_members@.len() > 0 ==> spells(
                r->Ok_0.members@,
                comma_pieces(team_members@),
            ),
    {
        let id = match parse_id(id) {
            Some(v) => v,
            None => {
                return Err(VaderError::FieldDecode);
            },
        };
        if team_members.is_empty() {
            return Ok(Team { id, name, score, logo, members: Vec::new() });
        }
        match parse_id_list(team_members) {
            Some(members) => Ok(Team { id, name, score, logo, members }),
            None => Err(VaderError::FieldDecode),
        }
    }
}

impl User {
    /// A user row.
    pub fn from_columns(id: &str, name: String, score: i64, logo: Option<String>) -> (r: Result<
        User,
        VaderError,
    >)
        ensures
            r is Ok <==> uuid_text_value(id@) is Some,
            r is Err ==> r->Err_0 == VaderError::FieldDecode,
            r is Ok ==> r->Ok_0.id == uuid_text_value(id@)->Some_0 && r->Ok_0.name == name
                && r->Ok_0.score == score && r->Ok_0.logo == logo,
    {
        match parse_id(id) {
            Some(v) => Ok(User { id: v, name, score, logo }),
            None => Err(VaderError::FieldDecode),
        }
    }
}

impl TeamInfo {
    /// A team row without its members.
    pub fn from_columns(id: &str, name: String, score: i64, logo: Option<String>) -> (r: Result<
        TeamInfo,
        VaderError,
    >)
        ensures
            r is Ok <==> uuid_text_value(id@) is Some,
            r is Err ==> r->Err_0 == VaderError::FieldDecode,
            r is Ok ==> r->Ok_0.id == uuid_text_value(id@)->Some_0 && r->Ok_0.name == name
                && r->Ok_0.score == score && r->Ok_0.logo == logo,
    {
        match parse_id(id) {
            Some(v) => Ok(TeamInfo { id: v, name, score, logo }),
            None => Err(VaderError::FieldDecode),
        }
    }
}

} // verus!
