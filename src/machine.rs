//! The current-event slot and the commands that read or change it. A command
//! that needs the store is split in two: a plan, computed from the slot, of
//! the store operations to run; and, where the slot changes, a commit that
//! takes the store's answer.
use vstd::prelude::*;
use crate::error::VaderError;
use crate::lifecycle::{Command, Phase, Slot, admission, agrees, members_after, next, outcome};
use crate::model::{
    ContestantInfo, EntityKind, Event, EventQuery, EventQueryBuilder, EventQueryState, EventReq,
    EventType, MemberInfo, ScoreUpdate, Team, TeamWithMembers, User, opt_text,
};
use crate::fts::{CurEventFts, CurFtsBuilder, TeamFtsOpt, search_admission};
use crate::store::{LeaderboardQuery, StoreOp};

verus! {

fn contains_id(v: &Vec<u128>, x: u128) -> (r: bool)
    ensures
        r == v@.contains(x),
{
    let mut i: usize = 0;
    while i < v.len()
        invariant
            i <= v@.len(),
            forall|j: int| 0 <= j < i ==> v@[j] != x,
        decreases v@.len() - i,
    {
        if v[i] == x {
            return true;
        }
        i = i + 1;
    }
    false
}

/// Adding the element at `i` to the set of a prefix.
proof fn prefix_set_grows(s: Seq<u128>, i: int)
    requires
        0 <= i < s.len(),
    ensures
        s.subrange(0, i + 1).to_set() == s.subrange(0, i).to_set().insert(s[i]),
{
    let a = s.subrange(0, i);
    let b = s.subrange(0, i + 1);
    assert forall|x: u128| b.contains(x) <==> a.contains(x) || x == s[i] by {
        if b.contains(x) {
            let j = choose|j: int| 0 <= j < b.len() && b[j] == x;
            if j < i {
                assert(a[j] == x);
            }
        }
        if a.contains(x) {
            let j = choose|j: int| 0 <= j < a.len() && a[j] == x;
            assert(b[j] == x);
        }
        if x == s[i] {
            assert(b[i] == x);
        }
    }
    assert(b.to_set() =~= a.to_set().insert(s[i]));
}

/// Adds each element of `from` that `seen` lacks.
fn add_missing(seen: &mut Vec<u128>, from: &Vec<u128>)
    requires
        old(seen)@.no_duplicates(),
    ensures
        final(seen)@.no_duplicates(),
        final(seen)@.to_set() == old(seen)@.to_set().union(from@.to_set()),
{
    let ghost s0 = seen@.to_set();
    let mut i: usize = 0;
    assert(from@.subrange(0, 0).to_set() =~= Set::<u128>::empty());
    assert(s0.union(Set::<u128>::empty()) =~= s0);
    while i < from.len()
        invariant
            i <= from@.len(),
            seen@.no_duplicates(),
            seen@.to_set() == s0.union(from@.subrange(0, i as int).to_set()),
        decreases from@.len() - i,
    {
        let x = from[i];
        proof {
            prefix_set_grows(from@, i as int);
        }
        if !contains_id(seen, x) {
            let ghost before = seen@;
            seen.push(x);
            assert(seen@ == before.push(x));
            assert forall|y: u128| seen@.contains(y) <==> before.contains(y) || y == x by {
                if seen@.contains(y) {
                    let j = choose|j: int| 0 <= j < seen@.len() && seen@[j] == y;
                    if j < before.len() {
                        assert(before[j] == y);
                    }
                }
                if before.contains(y) {
                    let j = choose|j: int| 0 <= j < before.len() && before[j] == y;
                    assert(seen@[j] == y);
                }
                if y == x {
                    assert(seen@[before.len() as int] == y);
                }
            }
            assert(seen@.to_set() =~= before.to_set().insert(x));
            assert(seen@.to_set() =~= s0.union(from@.subrange(0, i + 1).to_set()));
        } else {
            assert(seen@.to_set() =~= s0.union(from@.subrange(0, i + 1).to_set()));
        }
        i = i + 1;
    }
    assert(from@.subrange(0, from@.len() as int) =~= from@);
}

/// The number of distinct identifiers in `a` and `b` together.
fn distinct_union_count(a: &Vec<u128>, b: &Vec<u128>) -> (r: usize)
    ensures
        r == members_after(a@, b@),
{
    let mut seen: Vec<u128> = Vec::new();
    assert(seen@.to_set() =~= Set::<u128>::empty());
    add_missing(&mut seen, a);
    add_missing(&mut seen, b);
    assert(Set::<u128>::empty().union(a@.to_set()) =~= a@.to_set());
    proof {
        seen@.unique_seq_to_set();
    }
    seen.len()
}

/// An event in one of its three lifecycle states.
#[derive(Debug)]
pub enum EventStateWrapper {
    New(Event),
    Active(Event),
    End(Event),
}

impl EventStateWrapper {
    pub open spec fn phase_of(self) -> Phase {
        match self {
            EventStateWrapper::New(_) => Phase::Added,
            EventStateWrapper::Active(_) => Phase::Active,
            EventStateWrapper::End(_) => Phase::Ended,
        }
    }

    pub open spec fn event_of(self) -> Event {
        match self {
            EventStateWrapper::New(e) => e,
            EventStateWrapper::Active(e) => e,
            EventStateWrapper::End(e) => e,
        }
    }

    pub fn event(&self) -> (r: &Event)
        ensures
            *r == self.event_of(),
    {
        match self {
            EventStateWrapper::New(e) => e,
            EventStateWrapper::Active(e) => e,
            EventStateWrapper::End(e) => e,
        }
    }

    pub fn get_id(&self) -> (r: u128)
        ensures
            r == self.event_of().id,
    {
        self.event().id
    }

    /// Moves an added event to the running state.
    pub fn start_event(self) -> (r: (EventStateWrapper, Result<(), VaderError>))
        ensures
            r.0.event_of() == self.event_of(),
            self.phase_of() == Phase::Added ==> r.0.phase_of() == Phase::Active && r.1 == Ok::<(), VaderError>(()),
            self.phase_of() == Phase::Active ==> r.0 == self && r.1 == Err::<(), VaderError>(
                VaderError::EventActive,
            ),
            self.phase_of() == Phase::Ended ==> r.0 == self && r.1 == Err::<(), VaderError>(
                VaderError::EventEnded,
            ),
    {
        match self {
            EventStateWrapper::New(e) => (EventStateWrapper::Active(e), Ok(())),
            EventStateWrapper::Active(e) => (EventStateWrapper::Active(e), Err(VaderError::EventActive)),
            EventStateWrapper::End(e) => (EventStateWrapper::End(e), Err(VaderError::EventEnded)),
        }
    }

    /// Moves a running event to the ended state.
    pub fn end_event(self) -> (r: (EventStateWrapper, Result<(), VaderError>))
        ensures
            r.0.event_of() == self.event_of(),
            self.phase_of() == Phase::Active ==> r.0.phase_of() == Phase::Ended && r.1 == Ok::<(), VaderError>(()),
            self.phase_of() == Phase::Added ==> r.0 == self && r.1 == Err::<(), VaderError>(
                VaderError::EventNotActive,
            ),
            self.phase_of() == Phase::Ended ==> r.0 == self && r.1 == Err::<(), VaderError>(
                VaderError::EventEnded,
            ),
    {
        match self {
            EventStateWrapper::New(e) => (EventStateWrapper::New(e), Err(VaderError::EventNotActive)),
            EventStateWrapper::Active(e) => (EventStateWrapper::End(e), Ok(())),
            EventStateWrapper::End(e) => (EventStateWrapper::End(e), Err(VaderError::EventEnded)),
        }
    }

    fn query_state(&self) -> (r: EventQueryState)
        ensures
            r == query_state_of(self.phase_of()),
    {
        match self {
            EventStateWrapper::New(_) => EventQueryState::Added,
            EventStateWrapper::Active(_) => EventQueryState::Start,
            EventStateWrapper::End(_) => EventQueryState::Stop,
        }
    }
}

/// How a lifecycle phase is reported.
pub open spec fn query_state_of(p: Phase) -> EventQueryState {
    match p {
        Phase::Added => EventQueryState::Added,
        Phase::Active => EventQueryState::Start,
        Phase::Ended => EventQueryState::Stop,
    }
}

/// Whether `op` creates a user with identifier `id` from the contestant `info`.
pub open spec fn inserts_user(op: StoreOp, id: u128, info: ContestantInfo) -> bool {
    &&& op matches StoreOp::InsertUser(u)
    &&& u.id == id
    &&& u.name == info.name
    &&& u.logo == info.logo
    &&& u.score == 0
}

/// The plan for a team with new members: the team's creation, its entry in
/// the event, each member's creation in order, and the membership batch.
pub open spec fn with_members_plan(
    team_id: u128,
    ops: Seq<StoreOp>,
    event_id: u128,
    team_info: ContestantInfo,
    infos: Seq<ContestantInfo>,
) -> bool {
    let n = infos.len() as int;
    &&& ops.len() == n + 3
    &&& ops[0] matches StoreOp::InsertTeam(t) && t.id == team_id && t.name == team_info.name
        && t.logo == team_info.logo && t.score == 0
    &&& ops[1] == (StoreOp::LinkEventTeam { event_id, team_id })
    &&& ops[n + 2] matches StoreOp::AddMembers { team_id: tid, members } && tid == team_id
        && members@.len() == n
        && forall|i: int| 0 <= i < n ==> #[trigger] inserts_user(ops[2 + i], members@[i], infos[i])
}

/// The current event, tagged by the kind of participant it ranks.
#[derive(Debug)]
pub enum EventWrapper {
    TeamEvent(EventStateWrapper),
    UserEvent(EventStateWrapper),
}

impl EventWrapper {
    pub open spec fn state_of(self) -> EventStateWrapper {
        match self {
            EventWrapper::TeamEvent(sw) => sw,
            EventWrapper::UserEvent(sw) => sw,
        }
    }

    /// A team event has a positive team size; a user event has none.
    pub open spec fn wf(self) -> bool {
        match self {
            EventWrapper::TeamEvent(sw) => sw.event_of().team_size is Some
                && sw.event_of().team_size->Some_0 > 0,
            EventWrapper::UserEvent(sw) => sw.event_of().team_size is None,
        }
    }

    pub open spec fn slot_of(self) -> Slot {
        Slot {
            event_type: self.state_of().event_of().type_of(),
            phase: self.state_of().phase_of(),
            id: self.state_of().event_of().id,
        }
    }

    /// A freshly added event, tagged by its type.
    pub fn new_added(e: Event) -> (r: EventWrapper)
        requires
            e.team_size != Some(0u32),
        ensures
            r.wf(),
            r.state_of() == EventStateWrapper::New(e),
    {
        match e.team_size {
            Some(_) => EventWrapper::TeamEvent(EventStateWrapper::New(e)),
            None => EventWrapper::UserEvent(EventStateWrapper::New(e)),
        }
    }

    fn state(&self) -> (r: &EventStateWrapper)
        ensures
            *r == self.state_of(),
    {
        match self {
            EventWrapper::TeamEvent(sw) => sw,
            EventWrapper::UserEvent(sw) => sw,
        }
    }

    pub fn get_id(&self) -> (r: u128)
        ensures
            r == self.slot_of().id,
    {
        self.state().get_id()
    }

    pub fn kind(&self) -> (r: EntityKind)
        requires
            self.wf(),
        ensures
            r == self.slot_of().event_type.kind_of(),
    {
        match self {
            EventWrapper::TeamEvent(_) => EntityKind::Team,
            EventWrapper::UserEvent(_) => EntityKind::User,
        }
    }

    fn phase(&self) -> (r: Phase)
        ensures
            r == self.slot_of().phase,
    {
        match self.state() {
            EventStateWrapper::New(_) => Phase::Added,
            EventStateWrapper::Active(_) => Phase::Active,
            EventStateWrapper::End(_) => Phase::Ended,
        }
    }

    fn event_type(&self) -> (r: EventType)
        ensures
            r == self.slot_of().event_type,
    {
        self.state().event().event_type()
    }

    pub fn start_event(self) -> (r: (EventWrapper, Result<(), VaderError>))
        requires
            self.wf(),
        ensures
            r.0.wf(),
            r.0.state_of().event_of() == self.state_of().event_of(),
            Some(r.0.slot_of()) == next(Some(self.slot_of()), Command::StartEvent, true),
            r.1 == admission(Some(self.slot_of()), Command::StartEvent),
    {
        match self {
            EventWrapper::TeamEvent(sw) => {
                let (sw, res) = sw.start_event();
                (EventWrapper::TeamEvent(sw), res)
            },
            EventWrapper::UserEvent(sw) => {
                let (sw, res) = sw.start_event();
                (EventWrapper::UserEvent(sw), res)
            },
        }
    }

    pub fn end_event(self) -> (r: (EventWrapper, Result<(), VaderError>))
        requires
            self.wf(),
        ensures
            r.0.wf(),
            r.0.state_of().event_of() == self.state_of().event_of(),
            r.1 == admission(Some(self.slot_of()), Command::EndEvent),
            r.1 is Ok ==> r.0.slot_of() == (Slot { phase: Phase::Ended, ..self.slot_of() }),
            r.1 is Err ==> r.0.slot_of() == self.slot_of(),
    {
        match self {
            EventWrapper::TeamEvent(sw) => {
                let (sw, res) = sw.end_event();
                (EventWrapper::TeamEvent(sw), res)
            },
            EventWrapper::UserEvent(sw) => {
                let (sw, res) = sw.end_event();
                (EventWrapper::UserEvent(sw), res)
            },
        }
    }

    /// The score change to make, if the event is running.
    pub fn update_score_by_id(&self, id: u128, delta: i64) -> (r: Result<StoreOp, VaderError>)
        requires
            self.wf(),
        ensures
            agrees(r, admission(Some(self.slot_of()), Command::UpdateScore)),
            r is Ok ==> r->Ok_0 == (StoreOp::AddScore {
                kind: self.slot_of().event_type.kind_of(),
                id,
                delta,
            }),
    {
        match self.state() {
            EventStateWrapper::Active(_) => Ok(StoreOp::AddScore { kind: self.kind(), id, delta }),
            _ => Err(VaderError::EventNotActive),
        }
    }

    /// The score reset to make, if the event has not started.
    pub fn reset_score(&self) -> (r: Result<StoreOp, VaderError>)
        requires
            self.wf(),
        ensures
            agrees(r, admission(Some(self.slot_of()), Command::ResetScore)),
            r is Ok ==> r->Ok_0 == (StoreOp::ResetScores {
                event_id: self.slot_of().id,
                kind: self.slot_of().event_type.kind_of(),
            }),
    {
        match self.state() {
            EventStateWrapper::New(_) => Ok(
                StoreOp::ResetScores { event_id: self.get_id(), kind: self.kind() },
            ),
            _ => Err(VaderError::EventActive),
        }
    }

    /// Creating a team and entering it in the event.
    pub fn add_team(&self, team: Team) -> (r: Result<Vec<StoreOp>, VaderError>)
        requires
            self.wf(),
        ensures
            agrees(r, admission(Some(self.slot_of()), Command::AddTeam)),
            r is Ok ==> r->Ok_0@ == seq![
                StoreOp::InsertTeam(team),
                StoreOp::LinkEventTeam { event_id: self.slot_of().id, team_id: team.id },
            ],
    {
        match self {
            EventWrapper::UserEvent(_) => Err(VaderError::EventTypeMismatch),
            EventWrapper::TeamEvent(sw) => match sw {
                EventStateWrapper::New(e) => {
                    let team_id = team.id;
                    let mut ops: Vec<StoreOp> = Vec::new();
                    ops.push(StoreOp::InsertTeam(team));
                    ops.push(StoreOp::LinkEventTeam { event_id: e.id, team_id });
                    assert(ops@ =~= seq![
                        StoreOp::InsertTeam(team),
                        StoreOp::LinkEventTeam { event_id: self.slot_of().id, team_id: team.id },
                    ]);
                    Ok(ops)
                },
                _ => Err(VaderError::EventActive),
            },
        }
    }

    /// Creating a user: in a user event it is entered in the event; in a team
    /// event it waits to be made a member of a team.
    pub fn add_user(&self, user: User) -> (r: Result<Vec<StoreOp>, VaderError>)
        requires
            self.wf(),
        ensures
            agrees(r, admission(Some(self.slot_of()), Command::AddUser)),
            r is Ok && self.slot_of().event_type is TeamEvent ==> r->Ok_0@ == seq![
                StoreOp::InsertUser(user),
            ],
            r is Ok && self.slot_of().event_type is UserEvent ==> r->Ok_0@ == seq![
                StoreOp::InsertUser(user),
                StoreOp::LinkEventUser { event_id: self.slot_of().id, user_id: user.id },
            ],
    {
        if self.phase() != Phase::Added {
            return Err(VaderError::EventActive);
        }
        let event_id = self.get_id();
        let user_id = user.id;
        let mut ops: Vec<StoreOp> = Vec::new();
        ops.push(StoreOp::InsertUser(user));
        match self {
            EventWrapper::UserEvent(_) => {
                ops.push(StoreOp::LinkEventUser { event_id, user_id });
                assert(ops@ =~= seq![
                    StoreOp::InsertUser(user),
                    StoreOp::LinkEventUser { event_id: self.slot_of().id, user_id: user.id },
                ]);
            },
            EventWrapper::TeamEvent(_) => {
                assert(ops@ =~= seq![StoreOp::InsertUser(user)]);
            },
        }
        Ok(ops)
    }

    /// Making existing users members of a team of this event; `current` are
    /// the team's members so far. The team may not grow past the team size.
    pub fn add_team_members(&self, mi: MemberInfo, current: &Vec<u128>) -> (r: Result<
        StoreOp,
        VaderError,
    >)
        requires
            self.wf(),
        ensures
            agrees(
                r,
                admission(
                    Some(self.slot_of()),
                    Command::AddMembers { count: members_after(current@, mi.members@) },
                ),
            ),
            r is Ok ==> r->Ok_0 == (StoreOp::AddMembers {
                team_id: mi.team_id,
                members: mi.members,
            }),
    {
        match self {
            EventWrapper::UserEvent(_) => Err(VaderError::EventTypeMismatch),
            EventWrapper::TeamEvent(sw) => match sw {
                EventStateWrapper::New(e) => {
                    let size = match e.team_size {
                        Some(n) => n,
                        None => 0,
                    };
                    let count = distinct_union_count(current, &mi.members);
                    if count as u64 > size as u64 {
                        Err(VaderError::TeamSizeMismatch)
                    } else {
                        Ok(StoreOp::AddMembers { team_id: mi.team_id, members: mi.members })
                    }
                },
                _ => Err(VaderError::EventActive),
            },
        }
    }

    /// Creating a team with new users as its members and entering the team in
    /// the event. Returns the new team's identifier and the plan.
    pub fn add_team_with_members(&self, twm: TeamWithMembers) -> (r: Result<
        (u128, Vec<StoreOp>),
        VaderError,
    >)
        requires
            self.wf(),
        ensures
            agrees(
                r,
                admission(
                    Some(self.slot_of()),
                    Command::AddTeamWithMembers { count: twm.members@.len() },
                ),
            ),
            r is Ok ==> with_members_plan(
                r->Ok_0.0,
                r->Ok_0.1@,
                self.slot_of().id,
                twm.team_info,
                twm.members@,
            ),
    {
        let size = match self {
            EventWrapper::UserEvent(_) => {
                return Err(VaderError::EventTypeMismatch);
            },
            EventWrapper::TeamEvent(sw) => match sw {
                EventStateWrapper::New(e) => match e.team_size {
                    Some(n) => n,
                    None => 0,
                },
                _ => {
                    return Err(VaderError::EventActive);
                },
            },
        };
        if twm.members.len() as u64 > size as u64 {
            return Err(VaderError::TeamSizeMismatch);
        }
        let event_id = self.get_id();
        let ghost infos0 = twm.members@;
        let ghost info0 = twm.team_info;
        let TeamWithMembers { team_info, members: mut infos } = twm;
        let team = team_info.into_team();
        let team_id = team.id;
        let ghost t = team;
        let mut ops: Vec<StoreOp> = Vec::new();
        ops.push(StoreOp::InsertTeam(team));
        ops.push(StoreOp::LinkEventTeam { event_id, team_id });
        let mut ids: Vec<u128> = Vec::new();
        let n = infos.len();
        let mut k: usize = 0;
        while k < n
            invariant
                n == infos0.len(),
                k <= n,
                infos@ == infos0.subrange(k as int, n as int),
                ops@.len() == k + 2,
                ids@.len() == k,
                ops@[0] == StoreOp::InsertTeam(t),
                t.id == team_id && t.name == info0.name && t.logo == info0.logo && t.score == 0,
                ops@[1] == (StoreOp::LinkEventTeam { event_id, team_id }),
                forall|i: int|
                    0 <= i < k ==> #[trigger] ops@[2 + i] is InsertUser && inserts_user(
                        ops@[2 + i],
                        ids@[i],
                        infos0[i],
                    ),
            decreases n - k,
        {
            let info = infos.remove(0);
            let user = info.into_user();
            ids.push(user.id);
            ops.push(StoreOp::InsertUser(user));
            k = k + 1;
            assert(ops@[2 + (k - 1)] == StoreOp::InsertUser(user));
        }
        let ghost ids_seq = ids@;
        ops.push(StoreOp::AddMembers { team_id, members: ids });
        assert forall|i: int| 0 <= i < n implies #[trigger] ops@[2 + i] is InsertUser
            && inserts_user(ops@[2 + i], ids_seq[i], infos0[i]) by {}
        Ok((team_id, ops))
    }

    /// The summary of the event with its lifecycle state.
    pub fn get_event(&self) -> (r: EventQuery)
        ensures
            r.id == self.slot_of().id,
            r.name@ == self.state_of().event_of().name@,
            opt_text(r.logo) == opt_text(self.state_of().event_of().logo),
            r.event_type == self.slot_of().event_type,
            r.state == query_state_of(self.slot_of().phase),
    {
        let sw = self.state();
        EventQueryBuilder::from_event(sw.event()).build_with_state(sw.query_state())
    }

    /// The leaderboard read, while the event runs.
    pub fn get_vboard(&self, count: u32) -> (r: Result<LeaderboardQuery, VaderError>)
        requires
            self.wf(),
        ensures
            r is Ok <==> self.slot_of().phase == Phase::Active,
            r is Err ==> r->Err_0 == VaderError::EventNotActive,
            r is Ok ==> r->Ok_0 == (LeaderboardQuery {
                event_id: self.slot_of().id,
                kind: self.slot_of().event_type.kind_of(),
                count,
            }),
    {
        match self.state() {
            EventStateWrapper::Active(_) => Ok(
                LeaderboardQuery { event_id: self.get_id(), kind: self.kind(), count },
            ),
            _ => Err(VaderError::EventNotActive),
        }
    }
}

/// The process-wide engine state: at most one current event, and the size of
/// the leaderboard.
#[derive(Debug)]
pub struct AppState {
    current_event: Option<EventWrapper>,
    vb_count: u32,
}

impl AppState {
    pub closed spec fn slot(&self) -> Option<Slot> {
        match self.current_event {
            Some(w) => Some(w.slot_of()),
            None => None,
        }
    }

    /// A current event is well formed, and never ended: ending an event
    /// clears the slot.
    #[verifier::type_invariant]
    spec fn well_formed(&self) -> bool {
        self.current_event is Some ==> {
            &&& self.current_event->Some_0.wf()
            &&& self.current_event->Some_0.slot_of().phase != Phase::Ended
        }
    }

    /// The size of the leaderboard.
    pub closed spec fn board_size(&self) -> u32 {
        self.vb_count
    }

    pub fn vb_count(&self) -> (r: u32)
        ensures
            r == self.board_size(),
    {
        self.vb_count
    }

    /// The event held in the slot.
    pub closed spec fn held_event(&self) -> Event {
        self.current_event->Some_0.state_of().event_of()
    }

    /// An engine with no current event.
    pub fn new(vb_count: u32) -> (r: AppState)
        ensures
            r.slot() is None,
            r.board_size() == vb_count,
    {
        AppState { current_event: None, vb_count }
    }

    /// The event to persist for an add-event request, if the slot is free.
    pub fn add_event(&self, req: EventReq) -> (r: Result<Event, VaderError>)
        ensures
            r is Err ==> forall|id: u128|
                #[trigger] admission(self.slot(), Command::AddEvent { event_type: req.event_type, id })
                    == Err::<(), VaderError>(r->Err_0),
            r is Ok ==> admission(
                self.slot(),
                Command::AddEvent { event_type: req.event_type, id: r->Ok_0.id },
            ) is Ok,
            r is Ok ==> r->Ok_0.name == req.name && r->Ok_0.logo == req.logo
                && r->Ok_0.type_of() == req.event_type,
    {
        proof {
            use_type_invariant(&*self);
        }
        if self.current_event.is_some() {
            return Err(VaderError::EventActive);
        }
        req.into_event()
    }

    /// Installs a persisted event as the current one. `stored` is the
    /// store's answer to the insertion.
    pub fn commit_add_event(&mut self, event: Event, stored: Result<(), VaderError>) -> (r: Result<
        u128,
        VaderError,
    >)
        ensures
            final(self).board_size() == old(self).board_size(),
            final(self).slot() == next(
                old(self).slot(),
                Command::AddEvent { event_type: event.type_of(), id: event.id },
                stored is Ok,
            ),
            agrees(
                r,
                outcome(
                    old(self).slot(),
                    Command::AddEvent { event_type: event.type_of(), id: event.id },
                    stored,
                ),
            ),
            r is Ok ==> r->Ok_0 == event.id && final(self).held_event() == event,
    {
        proof {
            use_type_invariant(&*self);
        }
        if self.current_event.is_some() {
            return Err(VaderError::EventActive);
        }
        match event.team_size {
            Some(n) => {
                if n == 0 {
                    return Err(VaderError::TeamSizeMismatch);
                }
            },
            None => {},
        }
        match stored {
            Err(e) => Err(e),
            Ok(()) => {
                let id = event.id;
                self.current_event = Some(EventWrapper::new_added(event));
                Ok(id)
            },
        }
    }

    /// The score reset that must precede the start of the current event.
    pub fn start_event(&self) -> (r: Result<StoreOp, VaderError>)
        ensures
            agrees(r, admission(self.slot(), Command::StartEvent)),
            r is Ok ==> r->Ok_0 == (StoreOp::ResetScores {
                event_id: self.slot()->Some_0.id,
                kind: self.slot()->Some_0.event_type.kind_of(),
            }),
    {
        proof {
            use_type_invariant(&*self);
        }
        match &self.current_event {
            None => Err(VaderError::NoCurrentEvent),
            Some(w) => match w.phase() {
                Phase::Added => w.reset_score(),
                Phase::Active => Err(VaderError::EventActive),
                Phase::Ended => Err(VaderError::EventEnded),
            },
        }
    }

    /// Starts the current event once its scores were reset; `reset` is the
    /// store's answer to the reset. A failed reset leaves the event added.
    pub fn commit_start_event(&mut self, reset: Result<(), VaderError>) -> (r: Result<
        u128,
        VaderError,
    >)
        ensures
            final(self).board_size() == old(self).board_size(),
            final(self).slot() == next(old(self).slot(), Command::StartEvent, reset is Ok),
            agrees(r, outcome(old(self).slot(), Command::StartEvent, reset)),
            r is Ok ==> r->Ok_0 == old(self).slot()->Some_0.id,
            final(self).slot() is Some ==> final(self).held_event() == old(self).held_event(),
    {
        proof {
            use_type_invariant(&*self);
        }
        let mut cur: Option<EventWrapper> = None;
        std::mem::swap(&mut cur, &mut self.current_event);
        match cur {
            None => Err(VaderError::NoCurrentEvent),
            Some(w) => {
                if w.phase() == Phase::Added {
                    if let Err(e) = reset {
                        self.current_event = Some(w);
                        return Err(e);
                    }
                }
                let id = w.get_id();
                let (w, res) = w.start_event();
                self.current_event = Some(w);
                match res {
                    Ok(()) => Ok(id),
                    Err(e) => Err(e),
                }
            },
        }
    }

    /// Ends the current event and clears the slot in the same step. Returns
    /// the ended event's identifier; its live searches are to be stopped.
    pub fn end_event(&mut self) -> (r: Result<u128, VaderError>)
        ensures
            final(self).board_size() == old(self).board_size(),
            final(self).slot() == next(old(self).slot(), Command::EndEvent, true),
            agrees(r, admission(old(self).slot(), Command::EndEvent)),
            r is Ok ==> r->Ok_0 == old(self).slot()->Some_0.id,
            r is Err ==> final(self).held_event() == old(self).held_event(),
    {
        proof {
            use_type_invariant(&*self);
        }
        let mut cur: Option<EventWrapper> = None;
        std::mem::swap(&mut cur, &mut self.current_event);
        match cur {
            None => Err(VaderError::NoCurrentEvent),
            Some(w) => {
                let id = w.get_id();
                let (w, res) = w.end_event();
                match res {
                    Ok(()) => Ok(id),
                    Err(e) => {
                        self.current_event = Some(w);
                        Err(e)
                    },
                }
            },
        }
    }

    /// The score change for an update, if the current event is running.
    pub fn update_score(&self, su: ScoreUpdate) -> (r: Result<StoreOp, VaderError>)
        ensures
            agrees(r, admission(self.slot(), Command::UpdateScore)),
            r is Ok ==> r->Ok_0 == (StoreOp::AddScore {
                kind: self.slot()->Some_0.event_type.kind_of(),
                id: su.id,
                delta: su.score,
            }),
    {
        proof {
            use_type_invariant(&*self);
        }
        match &self.current_event {
            None => Err(VaderError::EventNotActive),
            Some(w) => w.update_score_by_id(su.id, su.score),
        }
    }

    /// The explicit score reset, allowed before the event starts.
    pub fn reset_score(&self) -> (r: Result<StoreOp, VaderError>)
        ensures
            agrees(r, admission(self.slot(), Command::ResetScore)),
            r is Ok ==> r->Ok_0 == (StoreOp::ResetScores {
                event_id: self.slot()->Some_0.id,
                kind: self.slot()->Some_0.event_type.kind_of(),
            }),
    {
        proof {
            use_type_invariant(&*self);
        }
        match &self.current_event {
            None => Err(VaderError::NoCurrentEvent),
            Some(w) => w.reset_score(),
        }
    }

    pub fn add_team(&self, team: Team) -> (r: Result<Vec<StoreOp>, VaderError>)
        ensures
            agrees(r, admission(self.slot(), Command::AddTeam)),
            r is Ok ==> r->Ok_0@ == seq![
                StoreOp::InsertTeam(team),
                StoreOp::LinkEventTeam { event_id: self.slot()->Some_0.id, team_id: team.id },
            ],
    {
        proof {
            use_type_invariant(&*self);
        }
        match &self.current_event {
            None => Err(VaderError::NoCurrentEvent),
            Some(w) => w.add_team(team),
        }
    }

    pub fn add_user(&self, user: User) -> (r: Result<Vec<StoreOp>, VaderError>)
        ensures
            agrees(r, admission(self.slot(), Command::AddUser)),
            r is Ok && self.slot()->Some_0.event_type is TeamEvent ==> r->Ok_0@ == seq![
                StoreOp::InsertUser(user),
            ],
            r is Ok && self.slot()->Some_0.event_type is UserEvent ==> r->Ok_0@ == seq![
                StoreOp::InsertUser(user),
                StoreOp::LinkEventUser { event_id: self.slot()->Some_0.id, user_id: user.id },
            ],
    {
        proof {
            use_type_invariant(&*self);
        }
        match &self.current_event {
            None => Err(VaderError::NoCurrentEvent),
            Some(w) => w.add_user(user),
        }
    }

    /// Making existing users members of a team; `current` are the team's
    /// members so far, as the store holds them.
    pub fn add_team_members(&self, mi: MemberInfo, current: &Vec<u128>) -> (r: Result<
        StoreOp,
        VaderError,
    >)
        ensures
            agrees(
                r,
                admission(
                    self.slot(),
                    Command::AddMembers { count: members_after(current@, mi.members@) },
                ),
            ),
            r is Ok ==> r->Ok_0 == (StoreOp::AddMembers {
                team_id: mi.team_id,
                members: mi.members,
            }),
    {
        proof {
            use_type_invariant(&*self);
        }
        match &self.current_event {
            None => Err(VaderError::NoCurrentEvent),
            Some(w) => w.add_team_members(mi, current),
        }
    }

    pub fn add_team_with_members(&self, twm: TeamWithMembers) -> (r: Result<
        (u128, Vec<StoreOp>),
        VaderError,
    >)
        ensures
            agrees(
                r,
                admission(
                    self.slot(),
                    Command::AddTeamWithMembers { count: twm.members@.len() },
                ),
            ),
            r is Ok ==> with_members_plan(
                r->Ok_0.0,
                r->Ok_0.1@,
                self.slot()->Some_0.id,
                twm.team_info,
                twm.members@,
            ),
    {
        proof {
            use_type_invariant(&*self);
        }
        match &self.current_event {
            None => Err(VaderError::NoCurrentEvent),
            Some(w) => w.add_team_with_members(twm),
        }
    }

    /// The deletion of a stored event; the current event cannot be deleted.
    pub fn delete_event(&self, id: u128) -> (r: Result<StoreOp, VaderError>)
        ensures
            agrees(r, admission(self.slot(), Command::DeleteEvent { id })),
            r is Ok ==> r->Ok_0 == (StoreOp::DeleteEvent { id }),
    {
        proof {
            use_type_invariant(&*self);
        }
        match &self.current_event {
            Some(w) => {
                if w.get_id() == id {
                    return Err(VaderError::EventActive);
                }
                Ok(StoreOp::DeleteEvent { id })
            },
            None => Ok(StoreOp::DeleteEvent { id }),
        }
    }

    /// The summary of the current event.
    pub fn get_current_event(&self) -> (r: Result<EventQuery, VaderError>)
        ensures
            self.slot() is None <==> r == Err::<EventQuery, VaderError>(VaderError::NoCurrentEvent),
            r is Ok ==> r->Ok_0.id == self.slot()->Some_0.id && r->Ok_0.event_type
                == self.slot()->Some_0.event_type && r->Ok_0.state == query_state_of(
                self.slot()->Some_0.phase,
            ) && r->Ok_0.name@ == self.held_event().name@ && opt_text(r->Ok_0.logo) == opt_text(
                self.held_event().logo,
            ),
    {
        proof {
            use_type_invariant(&*self);
        }
        match &self.current_event {
            None => Err(VaderError::NoCurrentEvent),
            Some(w) => Ok(w.get_event()),
        }
    }

    /// The leaderboard read of the current event, while it runs.
    pub fn vboard_query(&self) -> (r: Result<LeaderboardQuery, VaderError>)
        ensures
            r is Ok <==> self.slot() is Some && self.slot()->Some_0.phase == Phase::Active,
            r is Err ==> r->Err_0 == VaderError::EventNotActive,
            r is Ok ==> r->Ok_0 == (LeaderboardQuery {
                event_id: self.slot()->Some_0.id,
                kind: self.slot()->Some_0.event_type.kind_of(),
                count: self.board_size(),
            }),
    {
        proof {
            use_type_invariant(&*self);
        }
        match &self.current_event {
            None => Err(VaderError::EventNotActive),
            Some(w) => w.get_vboard(self.vb_count),
        }
    }
    /// A search session of the current event, if its type allows the option.
    pub fn open_search(&self, team_opt: Option<TeamFtsOpt>, count: u32) -> (r: Result<
        CurEventFts,
        VaderError,
    >)
        ensures
            r is Ok <==> search_admission(self.slot(), team_opt) is Ok,
            r is Err ==> search_admission(self.slot(), team_opt) == Err::<(), VaderError>(
                r->Err_0,
            ),
            r is Ok ==> r->Ok_0.event_id == self.slot()->Some_0.id && r->Ok_0.count == count
                && r->Ok_0.team_opt == team_opt && r->Ok_0.addr is None,
    {
        proof {
            use_type_invariant(&*self);
        }
        match &self.current_event {
            None => Err(VaderError::NoCurrentEvent),
            Some(w) => {
                let is_team = match w.kind() {
                    crate::model::EntityKind::Team => true,
                    crate::model::EntityKind::User => false,
                };
                let builder = CurFtsBuilder::new(w.get_id(), count);
                match team_opt {
                    Some(TeamFtsOpt::TeamInfo) => if is_team {
                        Ok(builder.team_fts().build())
                    } else {
                        Err(VaderError::EventTypeMismatch)
                    },
                    Some(TeamFtsOpt::RemUserInfo) => if is_team {
                        Ok(builder.rem_user_fts().build())
                    } else {
                        Err(VaderError::EventTypeMismatch)
                    },
                    None => if is_team {
                        Err(VaderError::EventTypeMismatch)
                    } else {
                        Ok(builder.build())
                    },
                }
            },
        }
    }

    /// The lifecycle phase of the current event, if any.
    pub fn phase(&self) -> (r: Option<Phase>)
        ensures
            r == (match self.slot() {
                Some(s) => Some(s.phase),
                None => None::<Phase>,
            }),
            r != Some(Phase::Ended),
    {
        proof {
            use_type_invariant(&*self);
        }
        match &self.current_event {
            Some(w) => Some(w.phase()),
            None => None,
        }
    }

}

} // verus!
