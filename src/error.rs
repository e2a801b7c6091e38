use vstd::prelude::*;

verus! {

/// Every failure the engine reports.
#[derive(Clone, Copy, Debug, PartialEq, Eq, Structural)]
pub enum VaderError {
    /// A score operation while no event is running.
    EventNotActive,
    /// A transition attempted past the terminal state.
    EventEnded,
    /// A mutation forbidden once the event started, or a second event, or
    /// the deletion of the current event.
    EventActive,
    /// A team operation on a user event or a user operation on a team event.
    EventTypeMismatch,
    /// An operation that needs a current event while none is added.
    NoCurrentEvent,
    /// An internal failure of the store.
    Store,
    /// A stored column could not be decoded.
    FieldDecode,
    EventNotFound,
    TeamNotFound,
    /// A team event without a positive team size, or a member list longer
    /// than the team size.
    TeamSizeMismatch,
    UserNotFound,
    /// The password verifier rejected the stored hash.
    AdminHash,
    /// The blocking executor failed to run the verifier.
    Blocking,
    /// A response could not be serialized.
    Serialization,
}

/// Whether the error is the caller's doing (as opposed to an internal failure).
pub open spec fn is_client_error(e: VaderError) -> bool {
    match e {
        VaderError::Store
        | VaderError::FieldDecode
        | VaderError::AdminHash
        | VaderError::Blocking
        | VaderError::Serialization => false,
        _ => true,
    }
}

/// The text a response carries for each kind of error.
pub open spec fn headline(e: VaderError) -> Seq<char> {
    match e {
        VaderError::EventNotActive => "No Event is Active to perform operation."@,
        VaderError::EventEnded => "Operation Cannot be performed on Event that Ended."@,
        VaderError::EventActive => "Operation Cannot be performed on Active Event."@,
        VaderError::EventTypeMismatch => "Operation Cannot be performed on this Event Type."@,
        VaderError::NoCurrentEvent => "No event added."@,
        VaderError::Store => "Internal store error."@,
        VaderError::FieldDecode => "Stored field could not be decoded."@,
        VaderError::EventNotFound => "Event not Found."@,
        VaderError::TeamNotFound => "Team not Found."@,
        VaderError::TeamSizeMismatch => "Team Size mismatch."@,
        VaderError::UserNotFound => "User not Found."@,
        VaderError::AdminHash => "Admin Hash Error."@,
        VaderError::Blocking => "Error in performing blocking operation."@,
        VaderError::Serialization => "Error in serializing object."@,
    }
}

impl VaderError {
    /// The HTTP status class: 400 for a refused request, 500 for an internal failure.
    pub fn status_code(&self) -> (r: u16)
        ensures
            r == (if is_client_error(*self) { 400u16 } else { 500u16 }),
    {
        match self {
            VaderError::Store
            | VaderError::FieldDecode
            | VaderError::AdminHash
            | VaderError::Blocking
            | VaderError::Serialization => 500,
            _ => 400,
        }
    }

    /// The message a response body carries for this error.
    pub fn message(&self) -> (r: String)
        ensures
            r@ == headline(*self),
    {
        let s = match self {
            VaderError::EventNotActive => "No Event is Active to perform operation.",
            VaderError::EventEnded => "Operation Cannot be performed on Event that Ended.",
            VaderError::EventActive => "Operation Cannot be performed on Active Event.",
            VaderError::EventTypeMismatch => "Operation Cannot be performed on this Event Type.",
            VaderError::NoCurrentEvent => "No event added.",
            VaderError::Store => "Internal store error.",
            VaderError::FieldDecode => "Stored field could not be decoded.",
            VaderError::EventNotFound => "Event not Found.",
            VaderError::TeamNotFound => "Team not Found.",
            VaderError::TeamSizeMismatch => "Team Size mismatch.",
            VaderError::UserNotFound => "User not Found.",
            VaderError::AdminHash => "Admin Hash Error.",
            VaderError::Blocking => "Error in performing blocking operation.",
            VaderError::Serialization => "Error in serializing object.",
        };
        String::from_str(s)
    }
}

} // verus!
