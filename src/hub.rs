//! The leaderboard hub: the set of leaderboard subscribers, and who receives
//! each computed leaderboard. Subscribers are known by the handle the
//! transport gave their channel.
use vstd::prelude::*;
use crate::error::VaderError;
use crate::lifecycle::{Command, Phase, Slot, admission};
use crate::machine::AppState;
use crate::registry::Registry;
use crate::store::LeaderboardQuery;

verus! {

/// Where a computed leaderboard goes.
#[derive(Clone, Copy, Debug, PartialEq, Eq, Structural)]
pub enum TransferType {
    Unicast(u64),
    Broadcast,
}

/// A request to the hub to compute the leaderboard and send it.
#[derive(Clone, Copy, Debug, PartialEq, Eq, Structural)]
pub struct VboardGet(pub TransferType);

/// A computed leaderboard; `target` is `None` once it has reached a subscriber.
#[derive(Debug)]
pub struct VboardRes {
    pub payload: String,
    pub target: Option<TransferType>,
}

#[derive(Clone, Copy, Debug, PartialEq, Eq, Structural)]
pub struct VbConnect(pub u64);

#[derive(Clone, Copy, Debug, PartialEq, Eq, Structural)]
pub struct VbDisconnect(pub u64);

/// Whom a leaderboard for `target` reaches, given the subscribers.
pub open spec fn recipients_of(subscribers: Seq<u64>, target: TransferType) -> Seq<u64> {
    match target {
        TransferType::Unicast(h) => seq![h],
        TransferType::Broadcast => subscribers,
    }
}

/// Whether the hub can compute a leaderboard for the slot: an event is
/// running.
pub open spec fn leaderboard_available(s: Option<Slot>) -> bool {
    s is Some && s->Some_0.phase == Phase::Active
}

/// The notice that follows a score update: a broadcast after a success.
pub open spec fn notice_of(updated: Result<i64, VaderError>) -> Option<VboardGet> {
    if updated is Ok {
        Some(VboardGet(TransferType::Broadcast))
    } else {
        None
    }
}

/// The notice to send the hub once a score update has run.
pub fn score_notice(updated: &Result<i64, VaderError>) -> (r: Option<VboardGet>)
    ensures
        r == notice_of(*updated),
{
    match updated {
        Ok(_) => Some(VboardGet(TransferType::Broadcast)),
        Err(_) => None,
    }
}

/// The registry of leaderboard subscribers.
#[derive(Debug)]
pub struct VboardSrv {
    pub vb_addr: Registry,
}

impl VboardSrv {
    pub open spec fn subscribers(&self) -> Set<u64> {
        self.vb_addr.members()
    }

    pub fn new() -> (r: VboardSrv)
        ensures
            r.subscribers() == Set::<u64>::empty(),
    {
        VboardSrv { vb_addr: Registry::new() }
    }

    /// Registers a subscriber, and asks for the current leaderboard to be
    /// sent to it alone.
    pub fn connect(&mut self, msg: VbConnect) -> (r: VboardGet)
        ensures
            final(self).subscribers() == old(self).subscribers().insert(msg.0),
            r == VboardGet(TransferType::Unicast(msg.0)),
    {
        self.vb_addr.insert(msg.0);
        VboardGet(TransferType::Unicast(msg.0))
    }

    /// Removes a subscriber.
    pub fn disconnect(&mut self, msg: VbDisconnect)
        ensures
            final(self).subscribers() == old(self).subscribers().remove(msg.0),
    {
        self.vb_addr.remove(msg.0);
    }

    /// The subscribers a leaderboard for `target` goes to.
    pub fn recipients(&self, target: TransferType) -> (r: Vec<u64>)
        ensures
            r@ == recipients_of(self.vb_addr@, target),
            target is Broadcast ==> r@.no_duplicates() && r@.to_set() == self.subscribers(),
    {
        match target {
            TransferType::Unicast(h) => {
                let mut v: Vec<u64> = Vec::new();
                v.push(h);
                assert(v@ =~= seq![h]);
                v
            },
            TransferType::Broadcast => self.vb_addr.handles(),
        }
    }

    /// The subscribers a computed leaderboard is delivered to: none for a
    /// leaderboard that carries no target.
    pub fn deliver(&self, res: &VboardRes) -> (r: Vec<u64>)
        ensures
            res.target is None ==> r@.len() == 0,
            res.target is Some ==> r@ == recipients_of(self.vb_addr@, res.target->Some_0),
            res.target == Some(TransferType::Broadcast) ==> r@.no_duplicates() && r@.to_set()
                == self.subscribers(),
    {
        match res.target {
            Some(t) => self.recipients(t),
            None => Vec::new(),
        }
    }

    /// The leaderboard read that a request leads to, with where its result
    /// goes; nothing while no event is running or ended.
    pub fn handle_get(state: &AppState, msg: VboardGet) -> (r: Option<
        (LeaderboardQuery, TransferType),
    >)
        ensures
            r is Some <==> leaderboard_available(state.slot()),
            r is Some ==> r->Some_0.1 == msg.0 && r->Some_0.0 == (LeaderboardQuery {
                event_id: state.slot()->Some_0.id,
                kind: state.slot()->Some_0.event_type.kind_of(),
                count: state.board_size(),
            }),
    {
        match state.vboard_query() {
            Ok(q) => Some((q, msg.0)),
            Err(_) => None,
        }
    }
}

/// An inbound frame on a subscriber's channel.
#[derive(Debug)]
pub enum ClientFrame {
    Ping(Vec<u8>),
    Text(String),
    Other,
}

/// What a subscriber does with an inbound frame.
#[derive(Debug)]
pub enum ClientReply {
    Pong(Vec<u8>),
    Pull(VboardGet),
    Ignore,
}

/// A leaderboard subscriber; `addr` is its handle once its channel is open.
#[derive(Debug)]
pub struct VboardClient {
    pub addr: Option<u64>,
}

impl VboardClient {
    pub fn new() -> (r: VboardClient)
        ensures
            r.addr is None,
    {
        VboardClient { addr: None }
    }

    /// The channel opened under handle `me`: register with the hub.
    pub fn started(&mut self, me: u64) -> (r: VbConnect)
        ensures
            final(self).addr == Some(me),
            r == VbConnect(me),
    {
        self.addr = Some(me);
        VbConnect(me)
    }

    /// The channel closed: leave the hub.
    pub fn stopped(&self) -> (r: Option<VbDisconnect>)
        ensures
            self.addr is None ==> r is None,
            self.addr is Some ==> r == Some(VbDisconnect(self.addr->Some_0)),
    {
        match self.addr {
            Some(h) => Some(VbDisconnect(h)),
            None => None,
        }
    }

    /// A ping is answered, any text pulls a fresh leaderboard for this
    /// subscriber alone, anything else is ignored.
    pub fn handle(&self, frame: ClientFrame) -> (r: ClientReply)
        ensures
            frame is Ping ==> r == ClientReply::Pong(frame->Ping_0),
            frame is Text && self.addr is Some ==> r == ClientReply::Pull(
                VboardGet(TransferType::Unicast(self.addr->Some_0)),
            ),
            frame is Text && self.addr is None ==> r is Ignore,
            frame is Other ==> r is Ignore,
    {
        match frame {
            ClientFrame::Ping(bytes) => ClientReply::Pong(bytes),
            ClientFrame::Text(_) => match self.addr {
                Some(h) => ClientReply::Pull(VboardGet(TransferType::Unicast(h))),
                None => ClientReply::Ignore,
            },
            ClientFrame::Other => ClientReply::Ignore,
        }
    }
}

/// Every successful score update reaches every connected subscriber: it is
/// followed by a broadcast request, the running event lets the hub compute
/// the leaderboard, and the broadcast is delivered to each subscriber.
pub proof fn update_reaches_every_subscriber(
    state: AppState,
    hub: VboardSrv,
    updated: Result<i64, VaderError>,
    h: u64,
)
    requires
        admission(state.slot(), Command::UpdateScore) is Ok,
        updated is Ok,
        hub.subscribers().contains(h),
    ensures
        notice_of(updated) == Some(VboardGet(TransferType::Broadcast)),
        leaderboard_available(state.slot()),
        recipients_of(hub.vb_addr@, TransferType::Broadcast).contains(h),
{
}

} // verus!
