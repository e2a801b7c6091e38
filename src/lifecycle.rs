//! The abstract current-event state machine: which commands each state
//! admits, and the state each command leads to.
use vstd::prelude::*;
use crate::error::VaderError;
use crate::model::EventType;

verus! {

/// The lifecycle phase of the current event.
#[derive(Clone, Copy, Debug, PartialEq, Eq, Structural)]
pub enum Phase {
    Added,
    Active,
    Ended,
}

/// What the state machine knows of the current event.
#[derive(Clone, Copy, Debug, PartialEq, Eq, Structural)]
pub struct Slot {
    pub event_type: EventType,
    pub phase: Phase,
    pub id: u128,
}

/// A command as the state machine sees it.
pub enum Command {
    AddEvent { event_type: EventType, id: u128 },
    StartEvent,
    EndEvent,
    UpdateScore,
    ResetScore,
    AddTeam,
    AddUser,
    /// Members added to a team; `count` is the size of its member set after.
    AddMembers { count: nat },
    AddTeamWithMembers { count: nat },
    DeleteEvent { id: u128 },
}

/// The size of a team's member set once `new` are added to `current`.
pub open spec fn members_after(current: Seq<u128>, new: Seq<u128>) -> nat {
    current.to_set().union(new.to_set()).len()
}

/// The check a membership command passes in a team event: it must be added
/// and not started, and the members must fit the team size.
pub open spec fn admit_members(s: Slot, count: nat) -> Result<(), VaderError> {
    match s.event_type {
        EventType::UserEvent => Err(VaderError::EventTypeMismatch),
        EventType::TeamEvent { team_size } => if s.phase != Phase::Added {
            Err(VaderError::EventActive)
        } else if count > team_size {
            Err(VaderError::TeamSizeMismatch)
        } else {
            Ok(())
        },
    }
}

/// Whether the command may proceed from slot `s`, and if not, why.
pub open spec fn admission(s: Option<Slot>, c: Command) -> Result<(), VaderError> {
    match c {
        Command::AddEvent { event_type, .. } => if s is Some {
            Err(VaderError::EventActive)
        } else if event_type == (EventType::TeamEvent { team_size: 0 }) {
            Err(VaderError::TeamSizeMismatch)
        } else {
            Ok(())
        },
        Command::StartEvent => match s {
            None => Err(VaderError::NoCurrentEvent),
            Some(e) => match e.phase {
                Phase::Added => Ok(()),
                Phase::Active => Err(VaderError::EventActive),
                Phase::Ended => Err(VaderError::EventEnded),
            },
        },
        Command::EndEvent => match s {
            None => Err(VaderError::NoCurrentEvent),
            Some(e) => match e.phase {
                Phase::Added => Err(VaderError::EventNotActive),
                Phase::Active => Ok(()),
                Phase::Ended => Err(VaderError::EventEnded),
            },
        },
        Command::UpdateScore => match s {
            Some(e) => if e.phase == Phase::Active {
                Ok(())
            } else {
                Err(VaderError::EventNotActive)
            },
            None => Err(VaderError::EventNotActive),
        },
        Command::ResetScore => match s {
            None => Err(VaderError::NoCurrentEvent),
            Some(e) => if e.phase == Phase::Added {
                Ok(())
            } else {
                Err(VaderError::EventActive)
            },
        },
        Command::AddTeam => match s {
            None => Err(VaderError::NoCurrentEvent),
            Some(e) => if e.event_type == EventType::UserEvent {
                Err(VaderError::EventTypeMismatch)
            } else if e.phase != Phase::Added {
                Err(VaderError::EventActive)
            } else {
                Ok(())
            },
        },
        Command::AddUser => match s {
            None => Err(VaderError::NoCurrentEvent),
            Some(e) => if e.phase != Phase::Added {
                Err(VaderError::EventActive)
            } else {
                Ok(())
            },
        },
        Command::AddMembers { count } => match s {
            None => Err(VaderError::NoCurrentEvent),
            Some(e) => admit_members(e, count),
        },
        Command::AddTeamWithMembers { count } => match s {
            None => Err(VaderError::NoCurrentEvent),
            Some(e) => admit_members(e, count),
        },
        Command::DeleteEvent { id } => match s {
            Some(e) => if e.id == id {
                Err(VaderError::EventActive)
            } else {
                Ok(())
            },
            None => Ok(()),
        },
    }
}

/// The slot after command `c`, given whether the store operation it needed
/// succeeded. A refused command leaves the slot as it was.
pub open spec fn next(s: Option<Slot>, c: Command, stored: bool) -> Option<Slot> {
    if admission(s, c) is Err {
        s
    } else {
        match c {
            Command::AddEvent { event_type, id } => if stored {
                Some(Slot { event_type, phase: Phase::Added, id })
            } else {
                s
            },
            Command::StartEvent => if stored {
                Some(Slot { phase: Phase::Active, ..s->Some_0 })
            } else {
                s
            },
            Command::EndEvent => None,
            _ => s,
        }
    }
}

/// What a command reports: the refusal, or else the store's result.
pub open spec fn outcome(s: Option<Slot>, c: Command, store: Result<(), VaderError>) -> Result<
    (),
    VaderError,
> {
    match admission(s, c) {
        Err(e) => Err(e),
        Ok(()) => store,
    }
}

} // verus!

verus! {

/// A result agrees with a verdict when both succeed, or when both fail with
/// the same error.
pub open spec fn agrees<T>(r: Result<T, VaderError>, verdict: Result<(), VaderError>) -> bool {
    &&& (r is Ok <==> verdict is Ok)
    &&& (r is Err ==> verdict == Err::<(), VaderError>(r->Err_0))
}

} // verus!
