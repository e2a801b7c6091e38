use vaderboard::batch::{BatchAction, MemberBatch};
use vaderboard::decode::parse_id_list;
use vaderboard::error::VaderError;
use vaderboard::fts::{CurFtsServer, CurFtsStop, CurFtsConnect, CurFtsDisconnect, CurEventFtsWrapper, CurFtsBuilder, FtsQuery, FtsTarget, SearchReply, SearchScope};
use vaderboard::guard::{AdminOnlyGuard, grants_admin, login_status, UNAUTHORIZED};
use vaderboard::hub::{ClientFrame, ClientReply, TransferType, VbConnect, VbDisconnect, VboardClient, VboardGet, VboardRes, VboardSrv, score_notice};
use vaderboard::model::{AdminInfo, EntityKind, Event, EventInfo, EventType, Team, TeamInfo, User};
use vaderboard::store::{Entity, PlanStep, StoreOp, deletion_outcome, plan_progress, score_outcome};

const A: &str = "550e8400-e29b-41d4-a716-446655440000";
const B: &str = "6ba7b810-9dad-11d1-80b4-00c04fd430c8";
const A_VALUE: u128 = 0x550e8400e29b41d4a716446655440000;
const B_VALUE: u128 = 0x6ba7b8109dad11d180b400c04fd430c8;

#[test]
fn batch_commits_when_all_inserted() {
    let mut b = MemberBatch::new(1, vec![10, 11]);
    assert_eq!(b.next_action(), BatchAction::Insert { team_id: 1, user_id: 10 });
    b.record(Ok(1));
    assert_eq!(b.next_action(), BatchAction::Insert { team_id: 1, user_id: 11 });
    b.record(Ok(1));
    assert_eq!(b.next_action(), BatchAction::Commit);
}

#[test]
fn batch_rolls_back_on_store_error() {
    let mut b = MemberBatch::new(1, vec![10, 11, 12]);
    b.record(Ok(1));
    b.record(Err(VaderError::Store));
    assert_eq!(b.next_action(), BatchAction::Rollback(VaderError::Store));
}

#[test]
fn batch_rolls_back_when_team_missing() {
    let mut b = MemberBatch::new(1, vec![10, 11]);
    b.record(Ok(0));
    assert_eq!(b.next_action(), BatchAction::Rollback(VaderError::TeamNotFound));
}

#[test]
fn empty_batch_commits() {
    let b = MemberBatch::new(1, vec![]);
    assert_eq!(b.next_action(), BatchAction::Commit);
}

#[test]
fn broadcast_reaches_every_subscriber() {
    let mut hub = VboardSrv::new();
    hub.connect(VbConnect(1));
    hub.connect(VbConnect(2));
    hub.connect(VbConnect(2));
    hub.connect(VbConnect(3));
    hub.disconnect(VbDisconnect(2));
    let res = VboardRes { payload: "[]".to_string(), target: Some(TransferType::Broadcast) };
    let mut to = hub.deliver(&res);
    to.sort();
    assert_eq!(to, vec![1, 3]);
    let res = VboardRes { payload: "[]".to_string(), target: Some(TransferType::Unicast(9)) };
    assert_eq!(hub.deliver(&res), vec![9]);
    let res = VboardRes { payload: "[]".to_string(), target: None };
    assert!(hub.deliver(&res).is_empty());
    assert_eq!(score_notice(&Err(VaderError::TeamNotFound)), None);
}

#[test]
fn subscriber_frames() {
    let mut client = VboardClient::new();
    assert!(client.stopped().is_none());
    assert!(matches!(client.handle(ClientFrame::Text("x".to_string())), ClientReply::Ignore));
    assert_eq!(client.started(5), VbConnect(5));
    assert!(matches!(client.handle(ClientFrame::Ping(vec![1, 2])), ClientReply::Pong(b) if b == vec![1, 2]));
    assert!(matches!(client.handle(ClientFrame::Text("x".to_string())), ClientReply::Pull(VboardGet(TransferType::Unicast(5)))));
    assert!(matches!(client.handle(ClientFrame::Other), ClientReply::Ignore));
    assert_eq!(client.stopped(), Some(VbDisconnect(5)));
}

#[test]
fn search_registry_stops_all_open_channels() {
    let mut reg = CurFtsServer::new();
    reg.connect(CurFtsConnect(CurEventFtsWrapper(1)));
    reg.connect(CurFtsConnect(CurEventFtsWrapper(2)));
    reg.disconnect(CurFtsDisconnect(CurEventFtsWrapper(1)));
    assert_eq!(reg.stop(CurFtsStop), vec![2]);
}

#[test]
fn empty_prefix_reads_most_recent() {
    let q = FtsQuery::new(4, FtsTarget::Users);
    match q.handle(ClientFrame::Text(String::new())) {
        SearchReply::Query(s) => {
            assert_eq!(s.scope, SearchScope::Users);
            assert!(s.prefix.is_none());
            assert_eq!(s.count, 4);
        }
        other => panic!("unexpected {:?}", other),
    }
    let session = CurFtsBuilder::new(8, 2).rem_user_fts().build();
    match session.handle(ClientFrame::Text("ab".to_string())) {
        SearchReply::Query(s) => {
            assert_eq!(s.scope, SearchScope::RemainingUsers(8));
            assert_eq!(s.prefix.as_deref(), Some("ab"));
        }
        other => panic!("unexpected {:?}", other),
    }
    let session = CurFtsBuilder::new(8, 2).build();
    assert!(matches!(session.handle(ClientFrame::Text("".to_string())), SearchReply::Query(s) if s.scope == SearchScope::EventUsers(8) && s.prefix.is_none()));
}

#[test]
fn identifiers_parse() {
    assert_eq!(User::from_columns(A, "a".to_string(), 0, None).unwrap().id, A_VALUE);
    assert_eq!(User::from_columns("nope", "a".to_string(), 0, None).unwrap_err(), VaderError::FieldDecode);
    assert_eq!(User::from_columns("", "a".to_string(), 0, None).unwrap_err(), VaderError::FieldDecode);
    let first = Event::new("x".to_string(), None, None);
    let second = Event::new("x".to_string(), None, None);
    assert_ne!(first.id, second.id);
    assert_ne!(Team::new("t".to_string(), None).id, User::new("u".to_string(), None).id);
}

#[test]
fn member_list_decodes() {
    let list = format!("{},{}", A, B);
    assert_eq!(parse_id_list(&list), Some(vec![A_VALUE, B_VALUE]));
    assert_eq!(parse_id_list(A), Some(vec![A_VALUE]));
    assert_eq!(parse_id_list(&format!("{},", A)), None);
    assert_eq!(parse_id_list(&format!("{},zz", A)), None);
    assert_eq!(parse_id_list(""), None);
}

#[test]
fn rows_decode() {
    let t = Team::from_columns(A, "T1".to_string(), 7, None, &format!("{},{}", B, A)).unwrap();
    assert_eq!(t.id, A_VALUE);
    assert_eq!(t.score, 7);
    assert_eq!(t.members, vec![B_VALUE, A_VALUE]);
    assert_eq!(Team::from_columns("x", "T1".to_string(), 7, None, B).unwrap_err(), VaderError::FieldDecode);
    let lone = Team::from_columns(B, "T2".to_string(), 0, None, "").unwrap();
    assert!(lone.members.is_empty());
    assert_eq!(Team::from_columns(B, "T2".to_string(), 0, None, "zz").unwrap_err(), VaderError::FieldDecode);
    let u = User::from_columns(B, "U".to_string(), -2, Some("l".to_string())).unwrap();
    assert_eq!((u.id, u.score, u.logo.as_deref()), (B_VALUE, -2, Some("l")));
    assert_eq!(TeamInfo::from_columns("", "T".to_string(), 0, None).unwrap_err(), VaderError::FieldDecode);
    let e = EventInfo::from_columns(A, "E".to_string(), None, "team_event", Some(3)).unwrap();
    assert_eq!(e.event_type, EventType::TeamEvent { team_size: 3 });
    let e = EventInfo::from_columns(A, "E".to_string(), None, "user_event", None).unwrap();
    assert_eq!(e.event_type, EventType::UserEvent);
    assert_eq!(EventInfo::from_columns(A, "E".to_string(), None, "team_event", None).unwrap_err(), VaderError::FieldDecode);
    assert_eq!(EventInfo::from_columns(A, "E".to_string(), None, "other", None).unwrap_err(), VaderError::FieldDecode);
}

#[test]
fn stored_tags_read_back() {
    for t in [EventType::TeamEvent { team_size: 5 }, EventType::UserEvent] {
        let size = match t {
            EventType::TeamEvent { team_size } => Some(team_size),
            EventType::UserEvent => None,
        };
        assert_eq!(EventType::from_stored(t.stored_tag(), size), Some(t));
    }
    assert_eq!(EventType::TeamEvent { team_size: 1 }.stored_tag(), "team_event");
}

#[test]
fn store_answers() {
    assert_eq!(deletion_outcome(Entity::Event, 0), Err(VaderError::EventNotFound));
    assert_eq!(deletion_outcome(Entity::Team, 0), Err(VaderError::TeamNotFound));
    assert_eq!(deletion_outcome(Entity::User, 0), Err(VaderError::UserNotFound));
    assert_eq!(deletion_outcome(Entity::Team, 1), Ok(()));
    assert_eq!(score_outcome(EntityKind::Team, None), Err(VaderError::TeamNotFound));
    assert_eq!(score_outcome(EntityKind::User, None), Err(VaderError::UserNotFound));
    assert_eq!(score_outcome(EntityKind::User, Some(12)), Ok(12));
    assert!(matches!(Team::delete_team(5), StoreOp::DeleteTeam { id: 5 }));
    assert!(matches!(User::delete_user(6), StoreOp::DeleteUser { id: 6 }));
}

#[test]
fn password_verification() {
    let hash = bcrypt::hash("p@ss", 4).unwrap();
    let good = AdminInfo { username: "admin".to_string(), password: "p@ss".to_string() };
    let bad = AdminInfo { username: "admin".to_string(), password: "nope".to_string() };
    assert_eq!(good.verify_passwd(&Some(hash.clone())), Ok(true));
    assert_eq!(bad.verify_passwd(&Some(hash)), Ok(false));
    assert_eq!(good.verify_passwd(&None), Ok(false));
    assert_eq!(good.verify_passwd(&Some("not a hash".to_string())), Err(VaderError::AdminHash));
}

#[test]
fn login_statuses() {
    assert!(grants_admin(&Ok(true)));
    assert!(!grants_admin(&Ok(false)));
    assert!(!grants_admin(&Err(VaderError::Blocking)));
    assert_eq!(login_status(&Ok(true), true), 200);
    assert_eq!(login_status(&Ok(true), false), 500);
    assert_eq!(login_status(&Ok(false), true), 401);
    assert_eq!(login_status(&Err(VaderError::AdminHash), true), 500);
}

#[test]
fn admin_guard() {
    let svc = AdminOnlyGuard.new_transform(());
    assert!(svc.admits(Some(true)));
    assert!(!svc.admits(Some(false)));
    assert!(!svc.admits(None));
    assert_eq!(UNAUTHORIZED, 401);
}

#[test]
fn error_statuses_and_messages() {
    let client = [
        VaderError::EventNotActive,
        VaderError::EventEnded,
        VaderError::EventActive,
        VaderError::EventTypeMismatch,
        VaderError::NoCurrentEvent,
        VaderError::EventNotFound,
        VaderError::TeamNotFound,
        VaderError::TeamSizeMismatch,
        VaderError::UserNotFound,
    ];
    for e in client {
        assert_eq!(e.status_code(), 400);
    }
    let internal = [
        VaderError::Store,
        VaderError::FieldDecode,
        VaderError::AdminHash,
        VaderError::Blocking,
        VaderError::Serialization,
    ];
    for e in internal {
        assert_eq!(e.status_code(), 500);
    }
    assert_eq!(VaderError::EventActive.message(), "Operation Cannot be performed on Active Event.");
    assert_eq!(VaderError::TeamNotFound.message(), "Team not Found.");
    assert_eq!(VaderError::Store.message(), "Internal store error.");
}

#[test]
fn plan_stops_at_first_failure() {
    assert_eq!(plan_progress(&vec![], 3), PlanStep::Run(0));
    assert_eq!(plan_progress(&vec![Ok(()), Ok(())], 3), PlanStep::Run(2));
    assert_eq!(plan_progress(&vec![Ok(()), Ok(()), Ok(())], 3), PlanStep::Done);
    assert_eq!(plan_progress(&vec![Ok(()), Err(VaderError::Store)], 3), PlanStep::Stop(VaderError::Store));
    assert_eq!(plan_progress(&vec![Err(VaderError::TeamNotFound), Err(VaderError::Store)], 3), PlanStep::Stop(VaderError::TeamNotFound));
    assert_eq!(plan_progress(&vec![], 0), PlanStep::Done);
}
