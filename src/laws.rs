//! Properties of the current-event state machine over runs of commands.
use vstd::prelude::*;
use crate::error::VaderError;
use crate::fts::{TeamFtsOpt, search_admission};
use crate::lifecycle::{Command, Phase, Slot, admission, next, outcome};
use crate::model::EventType;
use crate::store::StoreOp;
use crate::tables::{Tables, apply, participants_zeroed, reset_zeroes_participants};

verus! {

/// One command of a run, with the store's answer to the operation it needed.
pub struct Step {
    pub command: Command,
    pub store: Result<(), VaderError>,
}

/// The slot after a run of steps.
pub open spec fn run(s: Option<Slot>, steps: Seq<Step>) -> Option<Slot>
    decreases steps.len(),
{
    if steps.len() == 0 {
        s
    } else {
        run(next(s, steps[0].command, steps[0].store is Ok), steps.drop_first())
    }
}

/// Whether no step of the run ends the current event successfully.
pub open spec fn keeps_event(s: Option<Slot>, steps: Seq<Step>) -> bool
    decreases steps.len(),
{
    if steps.len() == 0 {
        true
    } else {
        &&& !(steps[0].command is EndEvent && admission(s, Command::EndEvent) is Ok)
        &&& keeps_event(next(s, steps[0].command, steps[0].store is Ok), steps.drop_first())
    }
}

/// A slot holding an event keeps one through any run that does not end it.
pub proof fn held_until_ended(s: Option<Slot>, steps: Seq<Step>)
    requires
        s is Some,
        keeps_event(s, steps),
    ensures
        run(s, steps) is Some,
    decreases steps.len(),
{
    if steps.len() > 0 {
        held_until_ended(next(s, steps[0].command, steps[0].store is Ok), steps.drop_first());
    }
}

/// Singleton: after a successful add-event, and until that event is ended,
/// every further add-event fails with `EventActive`.
pub proof fn second_event_refused(
    s: Option<Slot>,
    event_type: EventType,
    id: u128,
    store: Result<(), VaderError>,
    rest: Seq<Step>,
    other_type: EventType,
    other_id: u128,
)
    requires
        outcome(s, Command::AddEvent { event_type, id }, store) is Ok,
        keeps_event(next(s, Command::AddEvent { event_type, id }, store is Ok), rest),
    ensures
        admission(
            run(next(s, Command::AddEvent { event_type, id }, store is Ok), rest),
            Command::AddEvent { event_type: other_type, id: other_id },
        ) == Err::<(), VaderError>(VaderError::EventActive),
{
    held_until_ended(next(s, Command::AddEvent { event_type, id }, store is Ok), rest);
}

pub open spec fn is_active(s: Option<Slot>) -> bool {
    s is Some && s->Some_0.phase == Phase::Active
}

/// Score gating: a score update is admitted exactly while the event runs and
/// is otherwise refused with `EventNotActive`; the event starts running only
/// through a successful start and stops only through an end.
pub proof fn score_window(s: Option<Slot>, c: Command, store: Result<(), VaderError>)
    ensures
        admission(s, Command::UpdateScore) is Ok <==> is_active(s),
        !is_active(s) ==> admission(s, Command::UpdateScore) == Err::<(), VaderError>(
            VaderError::EventNotActive,
        ),
        !is_active(s) && is_active(next(s, c, store is Ok)) ==> c is StartEvent && outcome(
            s,
            c,
            store,
        ) is Ok,
        is_active(s) && !is_active(next(s, c, store is Ok)) ==> c is EndEvent,
{
}

pub open spec fn is_added(s: Option<Slot>) -> bool {
    s is Some && s->Some_0.phase == Phase::Added
}

/// Participant gating: participants are admitted only while the event is
/// added and not started; once it has started (and for a command of the
/// event's kind) they are refused with `EventActive`. The added phase is
/// entered only by adding an event and left only by starting it.
pub proof fn participants_window(s: Option<Slot>, c: Command, store: Result<(), VaderError>, n: nat)
    ensures
        admission(s, Command::AddTeam) is Ok ==> is_added(s),
        admission(s, Command::AddUser) is Ok ==> is_added(s),
        admission(s, Command::AddMembers { count: n }) is Ok ==> is_added(s),
        admission(s, Command::AddTeamWithMembers { count: n }) is Ok ==> is_added(s),
        s is Some && !is_added(s) ==> admission(s, Command::AddUser) == Err::<(), VaderError>(
            VaderError::EventActive,
        ),
        s is Some && !is_added(s) && s->Some_0.event_type is TeamEvent ==> {
            &&& admission(s, Command::AddTeam) == Err::<(), VaderError>(VaderError::EventActive)
            &&& admission(s, Command::AddMembers { count: n }) == Err::<(), VaderError>(
                VaderError::EventActive,
            )
            &&& admission(s, Command::AddTeamWithMembers { count: n }) == Err::<(), VaderError>(
                VaderError::EventActive,
            )
        },
        !is_added(s) && is_added(next(s, c, store is Ok)) ==> c is AddEvent && outcome(
            s,
            c,
            store,
        ) is Ok,
        is_added(s) && !is_added(next(s, c, store is Ok)) ==> c is StartEvent && outcome(
            s,
            c,
            store,
        ) is Ok,
{
}

/// Reset before start: an added event becomes running only when the store
/// reported the score reset as done, a failed reset leaving it added; and
/// the reset that the start asks for (`AppState::start_event`) leaves every
/// participant of the event with a zero score.
pub proof fn start_needs_reset(s: Option<Slot>, reset: Result<(), VaderError>, t: Tables)
    requires
        is_added(s),
    ensures
        is_active(next(s, Command::StartEvent, reset is Ok)) <==> reset is Ok,
        reset is Err ==> next(s, Command::StartEvent, reset is Ok) == s && outcome(
            s,
            Command::StartEvent,
            reset,
        ) == reset,
        participants_zeroed(
            t,
            apply(
                t,
                StoreOp::ResetScores {
                    event_id: s->Some_0.id,
                    kind: s->Some_0.event_type.kind_of(),
                },
            ),
            s->Some_0.id,
            s->Some_0.event_type.kind_of(),
        ),
{
    reset_zeroes_participants(t, s->Some_0.id, s->Some_0.event_type.kind_of());
}

/// Type routing: a team-only command on a user event, or a user search on a
/// team event, fails with `EventTypeMismatch` and leaves the slot unchanged;
/// being refused, it runs no store operation.
pub proof fn kind_mismatch_refused(
    s: Option<Slot>,
    store: Result<(), VaderError>,
    n: nat,
    opt: TeamFtsOpt,
)
    requires
        s is Some,
    ensures
        s->Some_0.event_type is UserEvent ==> {
            &&& admission(s, Command::AddTeam) == Err::<(), VaderError>(
                VaderError::EventTypeMismatch,
            )
            &&& admission(s, Command::AddMembers { count: n }) == Err::<(), VaderError>(
                VaderError::EventTypeMismatch,
            )
            &&& admission(s, Command::AddTeamWithMembers { count: n }) == Err::<(), VaderError>(
                VaderError::EventTypeMismatch,
            )
            &&& search_admission(s, Some(opt)) == Err::<(), VaderError>(
                VaderError::EventTypeMismatch,
            )
            &&& next(s, Command::AddTeam, store is Ok) == s
            &&& next(s, Command::AddMembers { count: n }, store is Ok) == s
            &&& next(s, Command::AddTeamWithMembers { count: n }, store is Ok) == s
        },
        s->Some_0.event_type is TeamEvent ==> search_admission(s, None) == Err::<(), VaderError>(
            VaderError::EventTypeMismatch,
        ),
{
}

} // verus!
