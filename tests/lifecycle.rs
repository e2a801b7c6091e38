use vaderboard::error::VaderError;
use vaderboard::fts::{CurFtsServer, CurFtsStop, CurFtsConnect, CurEventFtsWrapper, SearchReply, SearchScope, TeamFtsOpt, NORMAL_CLOSURE};
use vaderboard::hub::{ClientFrame, TransferType, VbConnect, VboardGet, VboardRes, VboardSrv, score_notice};
use vaderboard::lifecycle::Phase;
use vaderboard::machine::{AppState, EventStateWrapper, EventWrapper};
use vaderboard::model::{ContestantInfo, EntityKind, Event, EventQueryState, EventReq, EventType, MemberInfo, ScoreUpdate, Team, TeamWithMembers, User};
use vaderboard::store::StoreOp;

fn contestant(name: &str) -> ContestantInfo {
    ContestantInfo { name: name.to_string(), logo: None }
}

fn request(name: &str, event_type: EventType) -> EventReq {
    EventReq { name: name.to_string(), logo: None, event_type }
}

/// Adds an event whose insertion the store accepts; returns its identifier.
fn add_stored(state: &mut AppState, name: &str, event_type: EventType) -> u128 {
    let event = state.add_event(request(name, event_type)).unwrap();
    state.commit_add_event(event, Ok(())).unwrap()
}

fn start_stored(state: &mut AppState) -> u128 {
    let op = state.start_event().unwrap();
    assert!(matches!(op, StoreOp::ResetScores { .. }));
    state.commit_start_event(Ok(())).unwrap()
}

fn phase(state: &AppState) -> Option<Phase> {
    state.phase()
}

#[test]
fn create_team_event() {
    let mut state = AppState::new(10);
    let eid = add_stored(&mut state, "E1", EventType::TeamEvent { team_size: 3 });
    let info = state.get_current_event().unwrap();
    assert_eq!(info.id, eid);
    assert_eq!(info.name, "E1");
    assert_eq!(info.event_type, EventType::TeamEvent { team_size: 3 });
    assert_eq!(info.state, EventQueryState::Added);
}

#[test]
fn team_event_lifecycle_and_gating() {
    let mut state = AppState::new(10);
    let eid = add_stored(&mut state, "E1", EventType::TeamEvent { team_size: 3 });
    assert_eq!(state.add_event(request("E2", EventType::UserEvent)).unwrap_err(), VaderError::EventActive);
    let twm = TeamWithMembers { team_info: contestant("T1"), members: vec![contestant("U1"), contestant("U2")] };
    let (tid, ops) = state.add_team_with_members(twm).unwrap();
    assert_eq!(ops.len(), 5);
    match &ops[0] {
        StoreOp::InsertTeam(t) => {
            assert_eq!(t.id, tid);
            assert_eq!(t.name, "T1");
            assert_eq!(t.score, 0);
        }
        other => panic!("unexpected {:?}", other),
    }
    assert!(matches!(ops[1], StoreOp::LinkEventTeam { event_id, team_id } if event_id == eid && team_id == tid));
    let (u1, u2) = match (&ops[2], &ops[3]) {
        (StoreOp::InsertUser(a), StoreOp::InsertUser(b)) => {
            assert_eq!(a.name, "U1");
            assert_eq!(b.name, "U2");
            (a.id, b.id)
        }
        other => panic!("unexpected {:?}", other),
    };
    match &ops[4] {
        StoreOp::AddMembers { team_id, members } => {
            assert_eq!(*team_id, tid);
            assert_eq!(members, &vec![u1, u2]);
        }
        other => panic!("unexpected {:?}", other),
    }
    let mut hub = VboardSrv::new();
    let pull = hub.connect(VbConnect(41));
    assert_eq!(pull, VboardGet(TransferType::Unicast(41)));
    assert_eq!(start_stored(&mut state), eid);
    assert_eq!(state.add_team(Team::new("T2".to_string(), None)).unwrap_err(), VaderError::EventActive);
    let op = state.update_score(ScoreUpdate { id: tid, score: 7 }).unwrap();
    assert!(matches!(op, StoreOp::AddScore { kind: EntityKind::Team, id, delta: 7 } if id == tid));
    let notice = score_notice(&Ok(7)).unwrap();
    assert_eq!(notice, VboardGet(TransferType::Broadcast));
    let (query, target) = VboardSrv::handle_get(&state, notice).unwrap();
    assert_eq!(query.event_id, eid);
    assert_eq!(query.kind, EntityKind::Team);
    assert_eq!(query.count, 10);
    let res = VboardRes { payload: "[]".to_string(), target: Some(target) };
    assert_eq!(hub.deliver(&res), vec![41]);
    let info = state.get_current_event().unwrap();
    assert_eq!(info.id, eid);
    assert_eq!(info.name, "E1");
    assert_eq!(info.event_type, EventType::TeamEvent { team_size: 3 });
    assert_eq!(info.state, EventQueryState::Start);
}

#[test]
fn reset_on_start() {
    let mut state = AppState::new(10);
    let eid = add_stored(&mut state, "E3", EventType::TeamEvent { team_size: 2 });
    let ops = state.add_team(Team::new("T".to_string(), None)).unwrap();
    let tid = match &ops[0] {
        StoreOp::InsertTeam(t) => t.id,
        other => panic!("unexpected {:?}", other),
    };
    assert_eq!(state.update_score(ScoreUpdate { id: tid, score: 5 }).unwrap_err(), VaderError::EventNotActive);
    match state.start_event().unwrap() {
        StoreOp::ResetScores { event_id, kind } => {
            assert_eq!(event_id, eid);
            assert_eq!(kind, EntityKind::Team);
        }
        other => panic!("unexpected {:?}", other),
    }
    assert_eq!(state.commit_start_event(Ok(())), Ok(eid));
    assert_eq!(phase(&state), Some(Phase::Active));
}

#[test]
fn failed_reset_keeps_event_added() {
    let mut state = AppState::new(10);
    add_stored(&mut state, "E4", EventType::UserEvent);
    assert_eq!(state.commit_start_event(Err(VaderError::Store)), Err(VaderError::Store));
    assert_eq!(phase(&state), Some(Phase::Added));
    assert!(state.add_user(User::new("late".to_string(), None)).is_ok());
}

#[test]
fn user_event_mismatch() {
    let mut state = AppState::new(10);
    add_stored(&mut state, "E5", EventType::UserEvent);
    assert_eq!(state.add_team(Team::new("Tx".to_string(), None)).unwrap_err(), VaderError::EventTypeMismatch);
    let mi = MemberInfo { team_id: 1, members: vec![2] };
    assert_eq!(state.add_team_members(mi, &vec![]).unwrap_err(), VaderError::EventTypeMismatch);
    let twm = TeamWithMembers { team_info: contestant("Ty"), members: vec![] };
    assert_eq!(state.add_team_with_members(twm).unwrap_err(), VaderError::EventTypeMismatch);
    assert_eq!(state.open_search(Some(TeamFtsOpt::TeamInfo), 5).unwrap_err(), VaderError::EventTypeMismatch);
    assert_eq!(phase(&state), Some(Phase::Added));
}

#[test]
fn user_search_on_team_event_mismatch() {
    let mut state = AppState::new(10);
    add_stored(&mut state, "E6", EventType::TeamEvent { team_size: 4 });
    assert_eq!(state.open_search(None, 5).unwrap_err(), VaderError::EventTypeMismatch);
}

#[test]
fn deletion_guard() {
    let mut state = AppState::new(10);
    let eid = add_stored(&mut state, "E7", EventType::TeamEvent { team_size: 3 });
    assert_eq!(state.delete_event(eid).unwrap_err(), VaderError::EventActive);
    assert!(matches!(state.delete_event(eid + 1), Ok(StoreOp::DeleteEvent { id }) if id == eid + 1));
    start_stored(&mut state);
    assert_eq!(state.delete_event(eid).unwrap_err(), VaderError::EventActive);
    assert_eq!(state.end_event(), Ok(eid));
    assert!(matches!(state.delete_event(eid), Ok(StoreOp::DeleteEvent { id }) if id == eid));
}

#[test]
fn live_search_teardown() {
    let mut state = AppState::new(10);
    let eid = add_stored(&mut state, "E8", EventType::TeamEvent { team_size: 3 });
    let mut registry = CurFtsServer::new();
    let mut session = state.open_search(Some(TeamFtsOpt::TeamInfo), 10).unwrap();
    let connect = session.started(7);
    assert_eq!(connect, CurFtsConnect(CurEventFtsWrapper(7)));
    registry.connect(connect);
    match session.handle(ClientFrame::Text("T".to_string())) {
        SearchReply::Query(q) => {
            assert_eq!(q.scope, SearchScope::EventTeams(eid));
            assert_eq!(q.prefix.as_deref(), Some("T"));
            assert_eq!(q.count, 10);
        }
        other => panic!("unexpected {:?}", other),
    }
    start_stored(&mut state);
    assert_eq!(state.end_event(), Ok(eid));
    assert_eq!(registry.stop(CurFtsStop), vec![7]);
    let close = session.handle_stop(CurFtsStop);
    assert_eq!(close.code, NORMAL_CLOSURE);
    assert_eq!(close.code, 1000);
    assert_eq!(close.description, "The Current Event ended");
    assert_eq!(state.open_search(Some(TeamFtsOpt::TeamInfo), 10).unwrap_err(), VaderError::NoCurrentEvent);
}

#[test]
fn second_event_refused_until_ended() {
    let mut state = AppState::new(10);
    let eid = add_stored(&mut state, "A", EventType::UserEvent);
    assert_eq!(state.add_event(request("B", EventType::UserEvent)).unwrap_err(), VaderError::EventActive);
    start_stored(&mut state);
    assert_eq!(state.add_event(request("B", EventType::UserEvent)).unwrap_err(), VaderError::EventActive);
    let stray = Event::new("C".to_string(), None, None);
    assert_eq!(state.commit_add_event(stray, Ok(())), Err(VaderError::EventActive));
    assert_eq!(state.end_event(), Ok(eid));
    assert!(state.add_event(request("B", EventType::UserEvent)).is_ok());
}

#[test]
fn score_gating_window() {
    let mut state = AppState::new(10);
    let su = ScoreUpdate { id: 9, score: -3 };
    assert_eq!(state.update_score(su).unwrap_err(), VaderError::EventNotActive);
    add_stored(&mut state, "S", EventType::UserEvent);
    assert_eq!(state.update_score(su).unwrap_err(), VaderError::EventNotActive);
    start_stored(&mut state);
    assert!(matches!(state.update_score(su), Ok(StoreOp::AddScore { kind: EntityKind::User, id: 9, delta: -3 })));
    state.end_event().unwrap();
    assert_eq!(state.update_score(su).unwrap_err(), VaderError::EventNotActive);
}

#[test]
fn participant_gating_window() {
    let mut state = AppState::new(10);
    assert_eq!(state.add_user(User::new("u".to_string(), None)).unwrap_err(), VaderError::NoCurrentEvent);
    let eid = add_stored(&mut state, "P", EventType::TeamEvent { team_size: 2 });
    let ops = state.add_user(User::new("u".to_string(), None)).unwrap();
    assert_eq!(ops.len(), 1);
    let mi = MemberInfo { team_id: 3, members: vec![4, 5] };
    assert!(matches!(state.add_team_members(mi, &vec![]), Ok(StoreOp::AddMembers { team_id: 3, .. })));
    assert!(matches!(state.reset_score(), Ok(StoreOp::ResetScores { event_id, .. }) if event_id == eid));
    start_stored(&mut state);
    assert_eq!(state.add_user(User::new("v".to_string(), None)).unwrap_err(), VaderError::EventActive);
    assert_eq!(state.add_team(Team::new("t".to_string(), None)).unwrap_err(), VaderError::EventActive);
    let mi = MemberInfo { team_id: 3, members: vec![6] };
    assert_eq!(state.add_team_members(mi, &vec![]).unwrap_err(), VaderError::EventActive);
    assert_eq!(state.reset_score().unwrap_err(), VaderError::EventActive);
    assert_eq!(state.start_event().unwrap_err(), VaderError::EventActive);
}

#[test]
fn user_event_links_new_users() {
    let mut state = AppState::new(10);
    let eid = add_stored(&mut state, "U", EventType::UserEvent);
    let user = User::new("solo".to_string(), Some("logo.png".to_string()));
    let uid = user.id;
    let ops = state.add_user(user).unwrap();
    assert_eq!(ops.len(), 2);
    assert!(matches!(ops[1], StoreOp::LinkEventUser { event_id, user_id } if event_id == eid && user_id == uid));
}

#[test]
fn member_count_bounded_by_team_size() {
    let mut state = AppState::new(10);
    add_stored(&mut state, "M", EventType::TeamEvent { team_size: 2 });
    let mi = MemberInfo { team_id: 3, members: vec![4, 5, 6] };
    assert_eq!(state.add_team_members(mi, &vec![]).unwrap_err(), VaderError::TeamSizeMismatch);
    let twm = TeamWithMembers { team_info: contestant("big"), members: vec![contestant("a"), contestant("b"), contestant("c")] };
    assert_eq!(state.add_team_with_members(twm).unwrap_err(), VaderError::TeamSizeMismatch);
}

#[test]
fn zero_team_size_refused() {
    let state = AppState::new(10);
    assert_eq!(state.add_event(request("Z", EventType::TeamEvent { team_size: 0 })).unwrap_err(), VaderError::TeamSizeMismatch);
}

#[test]
fn failed_insert_leaves_slot_empty() {
    let mut state = AppState::new(10);
    let event = state.add_event(request("F", EventType::UserEvent)).unwrap();
    assert_eq!(state.commit_add_event(event, Err(VaderError::Store)), Err(VaderError::Store));
    assert_eq!(state.get_current_event().unwrap_err(), VaderError::NoCurrentEvent);
}

#[test]
fn no_event_errors() {
    let mut state = AppState::new(10);
    assert_eq!(state.start_event().unwrap_err(), VaderError::NoCurrentEvent);
    assert_eq!(state.commit_start_event(Ok(())), Err(VaderError::NoCurrentEvent));
    assert_eq!(state.end_event(), Err(VaderError::NoCurrentEvent));
    assert_eq!(state.reset_score().unwrap_err(), VaderError::NoCurrentEvent);
    assert_eq!(state.vboard_query().unwrap_err(), VaderError::EventNotActive);
}

#[test]
fn end_before_start_refused() {
    let mut state = AppState::new(10);
    add_stored(&mut state, "N", EventType::UserEvent);
    assert_eq!(state.end_event(), Err(VaderError::EventNotActive));
    assert_eq!(phase(&state), Some(Phase::Added));
    assert_eq!(state.vboard_query().unwrap_err(), VaderError::EventNotActive);
}

#[test]
fn ended_state_refuses_transitions() {
    let e = Event::new("X".to_string(), None, None);
    let (sw, r) = EventStateWrapper::End(e).start_event();
    assert_eq!(r, Err(VaderError::EventEnded));
    let (_, r) = sw.end_event();
    assert_eq!(r, Err(VaderError::EventEnded));
}

#[test]
fn leaderboard_query_after_start() {
    let mut state = AppState::new(3);
    let eid = add_stored(&mut state, "L", EventType::UserEvent);
    start_stored(&mut state);
    let q = state.vboard_query().unwrap();
    assert_eq!((q.event_id, q.kind, q.count), (eid, EntityKind::User, 3));
}

#[test]
fn team_size_counts_current_members() {
    let mut state = AppState::new(10);
    add_stored(&mut state, "C", EventType::TeamEvent { team_size: 3 });
    let full = MemberInfo { team_id: 3, members: vec![40] };
    assert_eq!(state.add_team_members(full, &vec![10, 20, 30]).unwrap_err(), VaderError::TeamSizeMismatch);
    let overlap = MemberInfo { team_id: 3, members: vec![20, 30] };
    assert!(matches!(state.add_team_members(overlap, &vec![10, 20]), Ok(StoreOp::AddMembers { team_id: 3, .. })));
    let repeated = MemberInfo { team_id: 3, members: vec![50, 50] };
    assert!(state.add_team_members(repeated, &vec![10, 20]).is_ok());
}

#[test]
fn ended_wrapper_reports_stop() {
    let e = Event::new("W".to_string(), None, Some(2));
    let w = EventWrapper::TeamEvent(EventStateWrapper::Active(e));
    let (w, r) = w.end_event();
    assert_eq!(r, Ok(()));
    assert!(matches!(w, EventWrapper::TeamEvent(EventStateWrapper::End(_))));
    assert_eq!(w.get_event().state, EventQueryState::Stop);
    assert_eq!(w.get_vboard(5).unwrap_err(), VaderError::EventNotActive);
}
