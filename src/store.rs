//! The store operations the engine asks for, and how the store's answers
//! become the engine's results.
use vstd::prelude::*;
use crate::error::VaderError;
use crate::model::{EntityKind, Team, User};

verus! {

/// One operation on the store; its effect on the tables is
/// `tables::apply`. Operations of one plan run in order, as `plan_progress`
/// decides.
#[derive(Debug)]
pub enum StoreOp {
    InsertTeam(Team),
    InsertUser(User),
    LinkEventTeam { event_id: u128, team_id: u128 },
    LinkEventUser { event_id: u128, user_id: u128 },
    /// Insert every membership in one transaction, or none of them.
    AddMembers { team_id: u128, members: Vec<u128> },
    /// Add `delta` to the score of a participant and read back the new score.
    AddScore { kind: EntityKind, id: u128, delta: i64 },
    /// Set to zero the score of every participant of the event and, for a
    /// team event, of every member of a participating team.
    ResetScores { event_id: u128, kind: EntityKind },
    /// Delete an event with its participation entries.
    DeleteEvent { id: u128 },
    /// Delete a team with its memberships and participation entries.
    DeleteTeam { id: u128 },
    /// Delete a user with its memberships and participation entries.
    DeleteUser { id: u128 },
}

/// The leaderboard read: the top `count` participants of the event's kind by
/// score, highest first.
#[derive(Clone, Copy, Debug, PartialEq, Eq, Structural)]
pub struct LeaderboardQuery {
    pub event_id: u128,
    pub kind: EntityKind,
    pub count: u32,
}

/// The stored entities that a deletion or a score change addresses.
#[derive(Clone, Copy, Debug, PartialEq, Eq, Structural)]
pub enum Entity {
    Event,
    Team,
    User,
}

pub open spec fn not_found(target: Entity) -> VaderError {
    match target {
        Entity::Event => VaderError::EventNotFound,
        Entity::Team => VaderError::TeamNotFound,
        Entity::User => VaderError::UserNotFound,
    }
}

pub open spec fn entity_of(kind: EntityKind) -> Entity {
    match kind {
        EntityKind::Team => Entity::Team,
        EntityKind::User => Entity::User,
    }
}

fn not_found_error(target: Entity) -> (r: VaderError)
    ensures
        r == not_found(target),
{
    match target {
        Entity::Event => VaderError::EventNotFound,
        Entity::Team => VaderError::TeamNotFound,
        Entity::User => VaderError::UserNotFound,
    }
}

/// The result of a deletion that removed `rows_affected` rows: a deletion that
/// removed nothing addressed no stored entity.
pub fn deletion_outcome(target: Entity, rows_affected: u64) -> (r: Result<(), VaderError>)
    ensures
        rows_affected == 0 ==> r == Err::<(), VaderError>(not_found(target)),
        rows_affected > 0 ==> r is Ok,
{
    if rows_affected == 0 {
        Err(not_found_error(target))
    } else {
        Ok(())
    }
}

/// The result of a score change whose update returned the new score of the
/// matching row, if a row matched.
pub fn score_outcome(kind: EntityKind, new_score: Option<i64>) -> (r: Result<i64, VaderError>)
    ensures
        new_score is None ==> r == Err::<i64, VaderError>(not_found(entity_of(kind))),
        new_score is Some ==> r == Ok::<i64, VaderError>(new_score->Some_0),
{
    match new_score {
        Some(s) => Ok(s),
        None => match kind {
            EntityKind::Team => Err(VaderError::TeamNotFound),
            EntityKind::User => Err(VaderError::UserNotFound),
        },
    }
}

/// How a plan of `total` operations goes on, given the store's answers to
/// the operations run so far.
#[derive(Clone, Copy, Debug, PartialEq, Eq, Structural)]
pub enum PlanStep {
    /// Run the operation at this position.
    Run(usize),
    /// Stop with the first error the store reported.
    Stop(VaderError),
    /// Every operation succeeded.
    Done,
}

/// The next step of a plan: stop at the first failed operation, otherwise
/// run the next one, until all have run.
pub fn plan_progress(answers: &Vec<Result<(), VaderError>>, total: usize) -> (r: PlanStep)
    ensures
        r matches PlanStep::Stop(e) ==> exists|i: int|
            0 <= i < answers@.len() && answers@[i] == Err::<(), VaderError>(e) && forall|j: int|
                0 <= j < i ==> #[trigger] answers@[j] is Ok,
        !(r is Stop) ==> forall|j: int| 0 <= j < answers@.len() ==> #[trigger] answers@[j] is Ok,
        r matches PlanStep::Run(k) ==> k == answers@.len() && k < total,
        r is Done ==> answers@.len() >= total,
{
    let mut i: usize = 0;
    while i < answers.len()
        invariant
            i <= answers@.len(),
            forall|j: int| 0 <= j < i ==> #[trigger] answers@[j] is Ok,
        decreases answers@.len() - i,
    {
        if let Err(e) = answers[i] {
            return PlanStep::Stop(e);
        }
        i = i + 1;
    }
    if answers.len() < total {
        PlanStep::Run(answers.len())
    } else {
        PlanStep::Done
    }
}

impl Team {
    /// The deletion of a stored team, with its memberships and event entries.
    pub fn delete_team(id: u128) -> (r: StoreOp)
        ensures
            r == (StoreOp::DeleteTeam { id }),
    {
        StoreOp::DeleteTeam { id }
    }
}

impl User {
    /// The deletion of a stored user, with its memberships and event entries.
    pub fn delete_user(id: u128) -> (r: StoreOp)
        ensures
            r == (StoreOp::DeleteUser { id }),
    {
        StoreOp::DeleteUser { id }
    }
}

} // verus!
