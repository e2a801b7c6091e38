//! Entity values: events, teams, users and the request and response records
//! that carry them.
use vstd::prelude::*;
use crate::error::VaderError;
use crate::ids::fresh_id;

verus! {

/// The type of an event; a team event fixes how many members a team may have.
#[derive(Clone, Copy, Debug, PartialEq, Eq, Structural)]
pub enum EventType {
    TeamEvent { team_size: u32 },
    UserEvent,
}

/// Which kind of participant an event ranks.
#[derive(Clone, Copy, Debug, PartialEq, Eq, Structural)]
pub enum EntityKind {
    Team,
    User,
}

impl EventType {
    pub open spec fn kind_of(self) -> EntityKind {
        match self {
            EventType::TeamEvent { .. } => EntityKind::Team,
            EventType::UserEvent => EntityKind::User,
        }
    }

    /// The team size stored alongside an event of this type.
    pub open spec fn size_of(self) -> Option<u32> {
        match self {
            EventType::TeamEvent { team_size } => Some(team_size),
            EventType::UserEvent => None,
        }
    }

    pub fn kind(&self) -> (r: EntityKind)
        ensures
            r == self.kind_of(),
    {
        match self {
            EventType::TeamEvent { .. } => EntityKind::Team,
            EventType::UserEvent => EntityKind::User,
        }
    }
}

/// An event as the state machine holds it.
#[derive(Debug)]
pub struct Event {
    pub id: u128,
    pub name: String,
    pub logo: Option<String>,
    pub team_size: Option<u32>,
}

/// The logo text stored for an optional logo: the logo, or the empty text.
pub open spec fn logo_text(logo: Option<String>) -> Seq<char> {
    match logo {
        Some(l) => l@,
        None => Seq::empty(),
    }
}

/// The text of an optional string.
pub open spec fn opt_text(o: Option<String>) -> Option<Seq<char>> {
    match o {
        Some(s) => Some(s@),
        None => None,
    }
}

pub fn clone_text(o: &Option<String>) -> (r: Option<String>)
    ensures
        opt_text(r) == opt_text(*o),
{
    match o {
        Some(s) => Some(s.clone()),
        None => None,
    }
}

fn logo_or_empty(logo: &Option<String>) -> (r: String)
    ensures
        r@ == logo_text(*logo),
{
    match logo {
        Some(l) => l.clone(),
        None => String::new(),
    }
}

impl Event {
    /// A new event under a fresh identifier.
    pub fn new(name: String, logo: Option<String>, team_size: Option<u32>) -> (r: Event)
        ensures
            r.name == name,
            r.logo == logo,
            r.team_size == team_size,
    {
        Event { id: fresh_id(), name, logo, team_size }
    }

    /// The type the event was created with.
    pub open spec fn type_of(&self) -> EventType {
        match self.team_size {
            Some(n) => EventType::TeamEvent { team_size: n },
            None => EventType::UserEvent,
        }
    }

    pub fn event_type(&self) -> (r: EventType)
        ensures
            r == self.type_of(),
    {
        match self.team_size {
            Some(n) => EventType::TeamEvent { team_size: n },
            None => EventType::UserEvent,
        }
    }

    pub fn get_logo(&self) -> (r: String)
        ensures
            r@ == logo_text(self.logo),
    {
        logo_or_empty(&self.logo)
    }
}

/// A request to add an event.
#[derive(Debug)]
pub struct EventReq {
    pub name: String,
    pub logo: Option<String>,
    pub event_type: EventType,
}

impl EventReq {
    /// The event this request describes, under a fresh identifier. A team
    /// event needs a positive team size.
    pub fn into_event(self) -> (r: Result<Event, VaderError>)
        ensures
            r is Err <==> self.event_type == (EventType::TeamEvent { team_size: 0 }),
            r is Err ==> r->Err_0 == VaderError::TeamSizeMismatch,
            r is Ok ==> r->Ok_0.name == self.name && r->Ok_0.logo == self.logo
                && r->Ok_0.type_of() == self.event_type,
    {
        match self.event_type {
            EventType::TeamEvent { team_size } => {
                if team_size == 0 {
                    Err(VaderError::TeamSizeMismatch)
                } else {
                    Ok(Event::new(self.name, self.logo, Some(team_size)))
                }
            },
            EventType::UserEvent => Ok(Event::new(self.name, self.logo, None)),
        }
    }
}

/// A team row; `members` is read from the membership relation.
#[derive(Debug)]
pub struct Team {
    pub id: u128,
    pub name: String,
    pub score: i64,
    pub logo: Option<String>,
    pub members: Vec<u128>,
}

impl Team {
    /// A new team with no members and a zero score, under a fresh identifier.
    pub fn new(name: String, logo: Option<String>) -> (r: Team)
        ensures
            r.name == name,
            r.logo == logo,
            r.score == 0,
            r.members@.len() == 0,
    {
        Team { id: fresh_id(), name, score: 0, logo, members: Vec::new() }
    }

    pub fn get_id(&self) -> (r: u128)
        ensures
            r == self.id,
    {
        self.id
    }

    pub fn get_logo(&self) -> (r: String)
        ensures
            r@ == logo_text(self.logo),
    {
        logo_or_empty(&self.logo)
    }
}

/// A user row.
#[derive(Debug)]
pub struct User {
    pub id: u128,
    pub name: String,
    pub score: i64,
    pub logo: Option<String>,
}

impl User {
    /// A new user with a zero score, under a fresh identifier.
    pub fn new(name: String, logo: Option<String>) -> (r: User)
        ensures
            r.name == name,
            r.logo == logo,
            r.score == 0,
    {
        User { id: fresh_id(), name, score: 0, logo }
    }

    pub fn get_id(&self) -> (r: u128)
        ensures
            r == self.id,
    {
        self.id
    }

    pub fn get_logo(&self) -> (r: String)
        ensures
            r@ == logo_text(self.logo),
    {
        logo_or_empty(&self.logo)
    }
}

/// The name and logo of a team or user to be created.
#[derive(Debug)]
pub struct ContestantInfo {
    pub name: String,
    pub logo: Option<String>,
}

impl ContestantInfo {
    pub fn into_team(self) -> (r: Team)
        ensures
            r.name == self.name,
            r.logo == self.logo,
            r.score == 0,
            r.members@.len() == 0,
    {
        Team::new(self.name, self.logo)
    }

    pub fn into_user(self) -> (r: User)
        ensures
            r.name == self.name,
            r.logo == self.logo,
            r.score == 0,
    {
        User::new(self.name, self.logo)
    }
}

/// A team to be created together with new users as its members.
#[derive(Debug)]
pub struct TeamWithMembers {
    pub team_info: ContestantInfo,
    pub members: Vec<ContestantInfo>,
}

/// Existing users to be made members of a team.
#[derive(Debug)]
pub struct MemberInfo {
    pub team_id: u128,
    pub members: Vec<u128>,
}

/// A signed change to the score of a team or user.
#[derive(Clone, Copy, Debug, PartialEq, Eq, Structural)]
pub struct ScoreUpdate {
    pub id: u128,
    pub score: i64,
}

#[derive(Clone, Copy, Debug, PartialEq, Eq, Structural)]
pub struct IdQuery {
    pub id: u128,
}

/// The success payload of a mutation: a message and the identifier concerned.
#[derive(Debug)]
pub struct CommandResponse {
    pub msg: String,
    pub id: u128,
}

impl CommandResponse {
    pub fn new(msg: String, id: u128) -> (r: CommandResponse)
        ensures
            r.msg == msg,
            r.id == id,
    {
        CommandResponse { msg, id }
    }
}

/// The success payload of a creation.
#[derive(Debug)]
pub struct CreationResponse {
    pub msg: String,
    pub id: u128,
}

impl CreationResponse {
    pub fn new(msg: String, id: u128) -> (r: CreationResponse)
        ensures
            r.msg == msg,
            r.id == id,
    {
        CreationResponse { msg, id }
    }
}

/// The score of a participant after an update.
#[derive(Clone, Copy, Debug, PartialEq, Eq, Structural)]
pub struct ScoreResponse {
    pub id: u128,
    pub new_score: i64,
}

impl ScoreResponse {
    pub fn new(id: u128, new_score: i64) -> (r: ScoreResponse)
        ensures
            r == (ScoreResponse { id, new_score }),
    {
        ScoreResponse { id, new_score }
    }
}

/// A team as listings and leaderboards show it.
#[derive(Debug)]
pub struct TeamInfo {
    pub id: u128,
    pub name: String,
    pub score: i64,
    pub logo: Option<String>,
}

/// An event as listings show it.
#[derive(Debug)]
pub struct EventInfo {
    pub id: u128,
    pub name: String,
    pub logo: Option<String>,
    pub event_type: EventType,
}

/// The lifecycle state reported for the current event.
#[derive(Clone, Copy, Debug, PartialEq, Eq, Structural)]
pub enum EventQueryState {
    Added,
    Start,
    Stop,
}

/// The summary of the current event.
#[derive(Debug)]
pub struct EventQuery {
    pub id: u128,
    pub name: String,
    pub logo: Option<String>,
    pub event_type: EventType,
    pub state: EventQueryState,
}

#[derive(Debug)]
pub struct EventQueryBuilder {
    pub id: u128,
    pub name: String,
    pub logo: Option<String>,
    pub event_type: EventType,
}

impl EventQueryBuilder {
    /// The builder's summary of an event.
    pub fn from_event(e: &Event) -> (r: EventQueryBuilder)
        ensures
            r.id == e.id,
            r.name@ == e.name@,
            opt_text(r.logo) == opt_text(e.logo),
            r.event_type == e.type_of(),
    {
        EventQueryBuilder {
            id: e.id,
            name: e.name.clone(),
            logo: clone_text(&e.logo),
            event_type: e.event_type(),
        }
    }

    pub fn build_with_state(self, state: EventQueryState) -> (r: EventQuery)
        ensures
            r.id == self.id,
            r.name == self.name,
            r.logo == self.logo,
            r.event_type == self.event_type,
            r.state == state,
    {
        EventQuery {
            id: self.id,
            name: self.name,
            logo: self.logo,
            event_type: self.event_type,
            state,
        }
    }
}

/// An administrator credential: a user name with a clear or hashed password.
#[derive(Debug)]
pub struct AdminInfo {
    pub username: String,
    pub password: String,
}

} // verus!
