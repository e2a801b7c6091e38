//! What each store operation does to the stored tables. The store carries
//! out these effects; the engine's properties about stored data are proved
//! over this description.
use vstd::prelude::*;
use crate::model::EntityKind;
use crate::store::StoreOp;

verus! {

/// The stored tables: participant scores by identifier, the events, and the
/// three relations.
pub struct Tables {
    pub teams: Map<u128, int>,
    pub users: Map<u128, int>,
    pub events: Set<u128>,
    /// Pairs (team, user).
    pub members: Set<(u128, u128)>,
    /// Pairs (event, team).
    pub event_teams: Set<(u128, u128)>,
    /// Pairs (event, user).
    pub event_users: Set<(u128, u128)>,
}

/// Whether user `u` is a member of a team that takes part in event `e`.
pub open spec fn in_event_team(t: Tables, e: u128, u: u128) -> bool {
    exists|team: u128| t.event_teams.contains((e, team)) && #[trigger] t.members.contains((team, u))
}

/// The scores after a reset of event `e`: zero for every participant and,
/// in a team event, for every member of a participating team.
pub open spec fn reset(t: Tables, e: u128, kind: EntityKind) -> Tables {
    match kind {
        EntityKind::Team => Tables {
            teams: Map::new(
                |k: u128| t.teams.dom().contains(k),
                |k: u128| if t.event_teams.contains((e, k)) { 0 } else { t.teams[k] },
            ),
            users: Map::new(
                |k: u128| t.users.dom().contains(k),
                |k: u128| if in_event_team(t, e, k) { 0 } else { t.users[k] },
            ),
            ..t
        },
        EntityKind::User => Tables {
            users: Map::new(
                |k: u128| t.users.dom().contains(k),
                |k: u128| if t.event_users.contains((e, k)) { 0 } else { t.users[k] },
            ),
            ..t
        },
    }
}

/// The tables after one operation.
pub open spec fn apply(t: Tables, op: StoreOp) -> Tables {
    match op {
        StoreOp::InsertTeam(team) => Tables { teams: t.teams.insert(team.id, team.score as int), ..t },
        StoreOp::InsertUser(user) => Tables { users: t.users.insert(user.id, user.score as int), ..t },
        StoreOp::LinkEventTeam { event_id, team_id } => Tables {
            event_teams: t.event_teams.insert((event_id, team_id)),
            ..t
        },
        StoreOp::LinkEventUser { event_id, user_id } => Tables {
            event_users: t.event_users.insert((event_id, user_id)),
            ..t
        },
        StoreOp::AddMembers { team_id, members } => if t.teams.dom().contains(team_id) {
            Tables {
                members: t.members.union(
                    Set::new(|p: (u128, u128)| p.0 == team_id && members@.contains(p.1)),
                ),
                ..t
            }
        } else {
            t
        },
        StoreOp::AddScore { kind, id, delta } => match kind {
            EntityKind::Team => if t.teams.dom().contains(id) {
                Tables { teams: t.teams.insert(id, t.teams[id] + delta), ..t }
            } else {
                t
            },
            EntityKind::User => if t.users.dom().contains(id) {
                Tables { users: t.users.insert(id, t.users[id] + delta), ..t }
            } else {
                t
            },
        },
        StoreOp::ResetScores { event_id, kind } => reset(t, event_id, kind),
        StoreOp::DeleteEvent { id } => Tables {
            events: t.events.remove(id),
            event_teams: t.event_teams.filter(|p: (u128, u128)| p.0 != id),
            event_users: t.event_users.filter(|p: (u128, u128)| p.0 != id),
            ..t
        },
        StoreOp::DeleteTeam { id } => Tables {
            teams: t.teams.remove(id),
            members: t.members.filter(|p: (u128, u128)| p.0 != id),
            event_teams: t.event_teams.filter(|p: (u128, u128)| p.1 != id),
            ..t
        },
        StoreOp::DeleteUser { id } => Tables {
            users: t.users.remove(id),
            members: t.members.filter(|p: (u128, u128)| p.1 != id),
            event_users: t.event_users.filter(|p: (u128, u128)| p.1 != id),
            ..t
        },
    }
}

/// Whether, in `after`, every participant of event `e` in `before` (and in a
/// team event, every member of its teams) has a zero score.
pub open spec fn participants_zeroed(before: Tables, after: Tables, e: u128, kind: EntityKind) -> bool {
    match kind {
        EntityKind::Team => {
            &&& forall|team: u128|
                before.teams.dom().contains(team) && before.event_teams.contains((e, team))
                    ==> #[trigger] after.teams[team] == 0
            &&& forall|team: u128, u: u128|
                before.users.dom().contains(u) && before.event_teams.contains((e, team))
                    && #[trigger] before.members.contains((team, u)) ==> after.users[u] == 0
        },
        EntityKind::User => forall|u: u128|
            before.users.dom().contains(u) && before.event_users.contains((e, u))
                ==> #[trigger] after.users[u] == 0,
    }
}

/// A reset leaves every participant of the event, and in a team event every
/// member of its teams, with a zero score.
pub proof fn reset_zeroes_participants(t: Tables, e: u128, kind: EntityKind)
    ensures
        participants_zeroed(t, apply(t, StoreOp::ResetScores { event_id: e, kind }), e, kind),
{
}

/// Deleting a team removes its memberships and its event entries; deleting a
/// user removes its memberships and its event entries.
pub proof fn deletion_cascades(t: Tables, id: u128)
    ensures
        forall|u: u128| !#[trigger] apply(t, StoreOp::DeleteTeam { id }).members.contains((id, u)),
        forall|e: u128| !#[trigger] apply(t, StoreOp::DeleteTeam { id }).event_teams.contains((e, id)),
        !apply(t, StoreOp::DeleteTeam { id }).teams.dom().contains(id),
        forall|team: u128| !#[trigger] apply(t, StoreOp::DeleteUser { id }).members.contains((team, id)),
        forall|e: u128| !#[trigger] apply(t, StoreOp::DeleteUser { id }).event_users.contains((e, id)),
        !apply(t, StoreOp::DeleteUser { id }).users.dom().contains(id),
{
}

/// A membership batch takes effect whole or not at all: either every listed
/// user becomes a member of the team, or the memberships stay as they were.
pub proof fn member_batch_all_or_none(t: Tables, team_id: u128, members: Vec<u128>)
    ensures
        ({
            let after = apply(t, StoreOp::AddMembers { team_id, members });
            ||| after.members == t.members
            ||| forall|u: u128| #[trigger] members@.contains(u) ==> after.members.contains((team_id, u))
        }),
{
}

} // verus!
