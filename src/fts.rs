//! Prefix search channels: the search each prefix leads to, the search
//! sessions scoped to the current event, and their registry, which closes
//! them all when the event ends.
use vstd::prelude::*;
use crate::error::VaderError;
use crate::hub::ClientFrame;
use crate::lifecycle::{Command, Slot, admission, next};
use crate::registry::Registry;

verus! {

/// What an event-scoped team search looks for.
#[derive(Clone, Copy, Debug, PartialEq, Eq, Structural)]
pub enum TeamFtsOpt {
    /// The teams of the event.
    TeamInfo,
    /// The users that belong to no team of the event.
    RemUserInfo,
}

/// The rows a search reads.
#[derive(Clone, Copy, Debug, PartialEq, Eq, Structural)]
pub enum SearchScope {
    Events,
    Teams,
    Users,
    EventTeams(u128),
    RemainingUsers(u128),
    EventUsers(u128),
}

/// A search for at most `count` rows of `scope` whose name starts with
/// `prefix`; with no prefix, the `count` most recent rows.
#[derive(Debug)]
pub struct SearchQuery {
    pub scope: SearchScope,
    pub prefix: Option<String>,
    pub count: u32,
}

/// Whether `q` is the search for `prefix` over `scope`.
pub open spec fn searches(q: SearchQuery, scope: SearchScope, prefix: Seq<char>, count: u32) -> bool {
    &&& q.scope == scope
    &&& q.count == count
    &&& (prefix.len() == 0 ==> q.prefix is None)
    &&& (prefix.len() > 0 ==> q.prefix is Some && q.prefix->Some_0@ == prefix)
}

pub fn search_query(scope: SearchScope, prefix: String, count: u32) -> (r: SearchQuery)
    ensures
        searches(r, scope, prefix@, count),
{
    let p = if prefix.as_str().is_empty() {
        None
    } else {
        Some(prefix)
    };
    SearchQuery { scope, prefix: p, count }
}

/// What a search channel does with an inbound frame.
#[derive(Debug)]
pub enum SearchReply {
    Pong(Vec<u8>),
    Query(SearchQuery),
    Ignore,
}

/// The search population of an unscoped search channel.
#[derive(Clone, Copy, Debug, PartialEq, Eq, Structural)]
pub enum FtsTarget {
    Events,
    Teams,
    Users,
}

pub open spec fn target_scope(t: FtsTarget) -> SearchScope {
    match t {
        FtsTarget::Events => SearchScope::Events,
        FtsTarget::Teams => SearchScope::Teams,
        FtsTarget::Users => SearchScope::Users,
    }
}

/// An unscoped search channel over all events, teams or users.
#[derive(Clone, Copy, Debug, PartialEq, Eq, Structural)]
pub struct FtsQuery {
    pub count: u32,
    pub target: FtsTarget,
}

impl FtsQuery {
    pub fn new(count: u32, target: FtsTarget) -> (r: FtsQuery)
        ensures
            r == (FtsQuery { count, target }),
    {
        FtsQuery { count, target }
    }

    pub fn handle(&self, frame: ClientFrame) -> (r: SearchReply)
        ensures
            frame is Ping ==> r == SearchReply::Pong(frame->Ping_0),
            frame is Text ==> (r matches SearchReply::Query(q) && searches(
                q,
                target_scope(self.target),
                frame->Text_0@,
                self.count,
            )),
            frame is Other ==> r is Ignore,
    {
        match frame {
            ClientFrame::Ping(bytes) => SearchReply::Pong(bytes),
            ClientFrame::Text(prefix) => {
                let scope = match self.target {
                    FtsTarget::Events => SearchScope::Events,
                    FtsTarget::Teams => SearchScope::Teams,
                    FtsTarget::Users => SearchScope::Users,
                };
                SearchReply::Query(search_query(scope, prefix, self.count))
            },
            ClientFrame::Other => SearchReply::Ignore,
        }
    }
}

/// The signal that the current event has ended.
#[derive(Clone, Copy, Debug, PartialEq, Eq, Structural)]
pub struct CurFtsStop;

/// An event-scoped search channel, known by its handle.
#[derive(Clone, Copy, Debug, PartialEq, Eq, Structural, Hash)]
pub struct CurEventFtsWrapper(pub u64);

#[derive(Clone, Copy, Debug, PartialEq, Eq, Structural)]
pub struct CurFtsConnect(pub CurEventFtsWrapper);

#[derive(Clone, Copy, Debug, PartialEq, Eq, Structural)]
pub struct CurFtsDisconnect(pub CurEventFtsWrapper);

/// The close frame a channel sends.
#[derive(Debug)]
pub struct CloseReason {
    pub code: u16,
    pub description: String,
}

/// The close code of a normal closure.
pub const NORMAL_CLOSURE: u16 = 1000;

/// The registry of open event-scoped search channels.
#[derive(Debug)]
pub struct CurFtsServer {
    pub cfts_addr: Registry,
}

impl CurFtsServer {
    pub open spec fn open_channels(&self) -> Set<u64> {
        self.cfts_addr.members()
    }

    pub fn new() -> (r: CurFtsServer)
        ensures
            r.open_channels() == Set::<u64>::empty(),
    {
        CurFtsServer { cfts_addr: Registry::new() }
    }

    pub fn connect(&mut self, msg: CurFtsConnect)
        ensures
            final(self).open_channels() == old(self).open_channels().insert((msg.0).0),
    {
        self.cfts_addr.insert((msg.0).0);
    }

    pub fn disconnect(&mut self, msg: CurFtsDisconnect)
        ensures
            final(self).open_channels() == old(self).open_channels().remove((msg.0).0),
    {
        self.cfts_addr.remove((msg.0).0);
    }

    /// The channels to close when the current event ends: every open one.
    pub fn stop(&self, _msg: CurFtsStop) -> (r: Vec<u64>)
        ensures
            r@ == self.cfts_addr@,
            r@.to_set() == self.open_channels(),
            r@.no_duplicates(),
    {
        self.cfts_addr.handles()
    }
}

/// The search a session of the given event and option reads.
pub open spec fn session_scope(event_id: u128, team_opt: Option<TeamFtsOpt>) -> SearchScope {
    match team_opt {
        Some(TeamFtsOpt::TeamInfo) => SearchScope::EventTeams(event_id),
        Some(TeamFtsOpt::RemUserInfo) => SearchScope::RemainingUsers(event_id),
        None => SearchScope::EventUsers(event_id),
    }
}

/// A search session scoped to one event; a team option marks a team-event
/// search, its absence a user-event search.
#[derive(Debug)]
pub struct CurEventFts {
    pub event_id: u128,
    pub addr: Option<u64>,
    pub count: u32,
    pub team_opt: Option<TeamFtsOpt>,
}

impl CurEventFts {
    /// The channel opened under handle `me`: register with the registry.
    pub fn started(&mut self, me: u64) -> (r: CurFtsConnect)
        ensures
            final(self).addr == Some(me),
            final(self).event_id == old(self).event_id,
            final(self).count == old(self).count,
            final(self).team_opt == old(self).team_opt,
            r == CurFtsConnect(CurEventFtsWrapper(me)),
    {
        self.addr = Some(me);
        CurFtsConnect(CurEventFtsWrapper(me))
    }

    /// The channel closed: leave the registry.
    pub fn stopped(&self) -> (r: Option<CurFtsDisconnect>)
        ensures
            self.addr is None ==> r is None,
            self.addr is Some ==> r == Some(CurFtsDisconnect(CurEventFtsWrapper(self.addr->Some_0))),
    {
        match self.addr {
            Some(h) => Some(CurFtsDisconnect(CurEventFtsWrapper(h))),
            None => None,
        }
    }

    pub fn handle(&self, frame: ClientFrame) -> (r: SearchReply)
        ensures
            frame is Ping ==> r == SearchReply::Pong(frame->Ping_0),
            frame is Text ==> (r matches SearchReply::Query(q) && searches(
                q,
                session_scope(self.event_id, self.team_opt),
                frame->Text_0@,
                self.count,
            )),
            frame is Other ==> r is Ignore,
    {
        match frame {
            ClientFrame::Ping(bytes) => SearchReply::Pong(bytes),
            ClientFrame::Text(prefix) => {
                let scope = match self.team_opt {
                    Some(TeamFtsOpt::TeamInfo) => SearchScope::EventTeams(self.event_id),
                    Some(TeamFtsOpt::RemUserInfo) => SearchScope::RemainingUsers(self.event_id),
                    None => SearchScope::EventUsers(self.event_id),
                };
                SearchReply::Query(search_query(scope, prefix, self.count))
            },
            ClientFrame::Other => SearchReply::Ignore,
        }
    }

    /// The close frame a session sends when its event ends.
    pub fn handle_stop(&self, _msg: CurFtsStop) -> (r: CloseReason)
        ensures
            r.code == NORMAL_CLOSURE,
            r.description@ == "The Current Event ended"@,
    {
        CloseReason { code: NORMAL_CLOSURE, description: String::from_str("The Current Event ended") }
    }
}

/// Builds a search session of the current event.
#[derive(Debug)]
pub struct CurFtsBuilder {
    pub event_id: u128,
    pub count: u32,
}

/// Builds a team-event search session.
#[derive(Debug)]
pub struct CurFtsTeamBuilder {
    pub event_id: u128,
    pub count: u32,
    pub team_opt: TeamFtsOpt,
}

impl CurFtsBuilder {
    pub fn new(event_id: u128, count: u32) -> (r: CurFtsBuilder)
        ensures
            r.event_id == event_id,
            r.count == count,
    {
        CurFtsBuilder { event_id, count }
    }

    /// A user-event session.
    pub fn build(self) -> (r: CurEventFts)
        ensures
            r.event_id == self.event_id,
            r.count == self.count,
            r.team_opt is None,
            r.addr is None,
    {
        CurEventFts { event_id: self.event_id, addr: None, count: self.count, team_opt: None }
    }

    pub fn team_fts(self) -> (r: CurFtsTeamBuilder)
        ensures
            r.event_id == self.event_id,
            r.count == self.count,
            r.team_opt == TeamFtsOpt::TeamInfo,
    {
        CurFtsTeamBuilder {
            event_id: self.event_id,
            count: self.count,
            team_opt: TeamFtsOpt::TeamInfo,
        }
    }

    pub fn rem_user_fts(self) -> (r: CurFtsTeamBuilder)
        ensures
            r.event_id == self.event_id,
            r.count == self.count,
            r.team_opt == TeamFtsOpt::RemUserInfo,
    {
        CurFtsTeamBuilder {
            event_id: self.event_id,
            count: self.count,
            team_opt: TeamFtsOpt::RemUserInfo,
        }
    }
}

impl CurFtsTeamBuilder {
    pub fn build(self) -> (r: CurEventFts)
        ensures
            r.event_id == self.event_id,
            r.count == self.count,
            r.team_opt == Some(self.team_opt),
            r.addr is None,
    {
        CurEventFts {
            event_id: self.event_id,
            addr: None,
            count: self.count,
            team_opt: Some(self.team_opt),
        }
    }
}

/// Whether a search session with the given option may open on the slot: a
/// team search needs a team event, a user search a user event.
pub open spec fn search_admission(s: Option<Slot>, team_opt: Option<TeamFtsOpt>) -> Result<
    (),
    VaderError,
> {
    match s {
        None => Err(VaderError::NoCurrentEvent),
        Some(e) => if (team_opt is Some) != (e.event_type is TeamEvent) {
            Err(VaderError::EventTypeMismatch)
        } else {
            Ok(())
        },
    }
}

/// Ending the event tears down its searches: the slot is cleared, so no
/// search can open any more, and every open search channel is among those
/// closed, each with a normal closure.
pub proof fn end_closes_every_search(s: Option<Slot>, registry: CurFtsServer, h: u64)
    requires
        admission(s, Command::EndEvent) is Ok,
        registry.open_channels().contains(h),
    ensures
        next(s, Command::EndEvent, true) is None,
        forall|opt: Option<TeamFtsOpt>|
            #[trigger] search_admission(next(s, Command::EndEvent, true), opt) == Err::<
                (),
                VaderError,
            >(VaderError::NoCurrentEvent),
        registry.cfts_addr@.contains(h),
{
}

} // verus!
