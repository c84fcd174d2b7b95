use predlab::gui::engine::{engine_step, Command, EngineAction, EngineEvent, EngineState, Reply, Request, Section};
use predlab::gui::{ActionKind, ApiError, Config, OrderSide, PaperKey, PolyOrderResponse, Role, UiMessage};

type Order = (Option<f64>, f64);

fn step(s: &mut EngineState, ev: EngineEvent<Order>) -> Vec<EngineAction<Order>> {
    engine_step(s, &Config::default(), ev)
}

fn result_of(a: &EngineAction<Order>) -> Option<(ActionKind, bool, String)> {
    match a {
        EngineAction::Send(UiMessage::ActionResult { kind, ok, detail }) => Some((*kind, *ok, detail.clone())),
        _ => None,
    }
}

#[test]
fn refresh_all_polls_then_reports() {
    let mut s = EngineState::new();
    let acts = step(&mut s, EngineEvent::Command(Command::RefreshAll));
    assert_eq!(acts.len(), 2);
    assert!(matches!(acts[0], EngineAction::Refresh(Section::All)));
    assert_eq!(result_of(&acts[1]), Some((ActionKind::RefreshAll, true, "refreshed".to_string())));
}

#[test]
fn search_resets_paging_and_reports_the_query() {
    let mut s = EngineState::new();
    s.markets_offset = 100;
    let acts = step(&mut s, EngineEvent::Command(Command::SetSearch("rain".to_string())));
    assert_eq!(s.markets_offset, 0);
    assert_eq!(s.search, "rain");
    assert_eq!(acts.len(), 1);
    match &acts[0] {
        EngineAction::Request(Request::Markets { limit, offset, q }) => {
            assert_eq!((*limit, *offset, q.as_str()), (50, 0, "rain"));
        }
        _ => panic!("expected a markets request"),
    }
    let acts = step(&mut s, EngineEvent::Reply(Reply::Refreshed(true)));
    assert_eq!(acts.len(), 1);
    assert_eq!(result_of(&acts[0]), Some((ActionKind::SetSearch, true, "search: \"rain\"".to_string())));
    assert!(s.awaiting.is_none());
}

#[test]
fn rejected_order_shows_the_sim_message() {
    let mut s = EngineState::new();
    let acts = step(
        &mut s,
        EngineEvent::Command(Command::PlaceOrder {
            token_id: "tok".to_string(),
            side: OrderSide::Buy,
            order: (Some(0.5), 10.0),
        }),
    );
    assert!(matches!(&acts[0], EngineAction::Request(Request::PlaceOrder { order: (Some(p), sz), .. }) if *p == 0.5 && *sz == 10.0));
    let res = PolyOrderResponse {
        success: false,
        order_id: String::new(),
        status: String::new(),
        error_msg: Some("not enough cash".to_string()),
    };
    let acts = step(&mut s, EngineEvent::Reply(Reply::Order(Ok(res))));
    assert_eq!(acts.len(), 1);
    assert_eq!(result_of(&acts[0]), Some((ActionKind::PlaceOrder, false, "not enough cash".to_string())));
}

#[test]
fn accepted_order_refreshes_portfolio_and_book() {
    let mut s = EngineState::new();
    step(
        &mut s,
        EngineEvent::Command(Command::PlaceOrder { token_id: "tok".to_string(), side: OrderSide::Sell, order: (None, 3.0) }),
    );
    let res = PolyOrderResponse { success: true, order_id: "17".to_string(), status: "open".to_string(), error_msg: None };
    let acts = step(&mut s, EngineEvent::Reply(Reply::Order(Ok(res))));
    assert_eq!(acts.len(), 3);
    assert_eq!(result_of(&acts[0]), Some((ActionKind::PlaceOrder, true, "order 17 open".to_string())));
    assert!(matches!(acts[1], EngineAction::Refresh(Section::Portfolio)));
    assert!(matches!(&acts[2], EngineAction::Refresh(Section::Book(t)) if t == "tok"));
}

#[test]
fn issued_key_is_shown_before_the_result() {
    let mut s = EngineState::new();
    step(
        &mut s,
        EngineEvent::Command(Command::IssueKey {
            username: "alice".to_string(),
            display_name: "Alice".to_string(),
            role: Role::Member,
        }),
    );
    let key = PaperKey {
        username: "alice".to_string(),
        role: "member".to_string(),
        api_key: "pm_paper_x".to_string(),
        secret: String::new(),
        note: String::new(),
    };
    let acts = step(&mut s, EngineEvent::Reply(Reply::Key(Ok(key))));
    assert_eq!(acts.len(), 3);
    assert!(matches!(&acts[0], EngineAction::Send(UiMessage::KeyIssued { api_key, .. }) if api_key == "pm_paper_x"));
    assert_eq!(result_of(&acts[1]), Some((ActionKind::IssueKey, true, "issued member key for alice".to_string())));
    assert!(matches!(acts[2], EngineAction::Refresh(Section::Roster)));
}

#[test]
fn failed_profile_records_the_error() {
    let mut s = EngineState::new();
    step(&mut s, EngineEvent::Command(Command::FetchProfile { username: "bob".to_string() }));
    let err = ApiError::Status { status: 404, body: "no such user".to_string() };
    let acts = step(&mut s, EngineEvent::Reply(Reply::Done(Err(err))));
    assert_eq!(acts.len(), 2);
    assert!(matches!(&acts[0], EngineAction::ProfileError(m) if m == "HTTP 404: no such user"));
    assert_eq!(
        result_of(&acts[1]),
        Some((ActionKind::FetchProfile, false, "bob: HTTP 404: no such user".to_string()))
    );
}

#[test]
fn reset_everyone_and_force_resolve_refresh_what_they_change() {
    let mut s = EngineState::new();
    step(&mut s, EngineEvent::Command(Command::ResetBalance { username: None }));
    let acts = step(&mut s, EngineEvent::Reply(Reply::Done(Ok(()))));
    assert_eq!(result_of(&acts[0]), Some((ActionKind::ResetBalance, true, "reset ALL members".to_string())));
    assert!(matches!(acts[1], EngineAction::Refresh(Section::Roster)));
    step(
        &mut s,
        EngineEvent::Command(Command::ForceResolve { market_id: "m1".to_string(), resolution: "yes".to_string() }),
    );
    let acts = step(&mut s, EngineEvent::Reply(Reply::Done(Ok(()))));
    assert_eq!(result_of(&acts[0]), Some((ActionKind::ForceResolve, true, "resolved m1 to yes".to_string())));
    assert!(matches!(acts[1], EngineAction::Refresh(Section::Markets)));
    assert!(matches!(acts[2], EngineAction::Refresh(Section::Roster)));
}

#[test]
fn cancel_refreshes_the_selected_book() {
    let mut s = EngineState::new();
    step(&mut s, EngineEvent::Command(Command::SelectMarket { token_id: "tok".to_string() }));
    let acts = step(&mut s, EngineEvent::Reply(Reply::Refreshed(false)));
    assert_eq!(result_of(&acts[0]), Some((ActionKind::SelectMarket, false, "tok".to_string())));
    assert_eq!(s.selected_token.as_deref(), Some("tok"));
    step(&mut s, EngineEvent::Command(Command::CancelOrder { order_id: "9".to_string() }));
    let acts = step(
        &mut s,
        EngineEvent::Reply(Reply::Cancel(Ok(predlab::gui::PolyCancelResponse {
            success: true,
            order_id: "9".to_string(),
            status: "cancelled".to_string(),
        }))),
    );
    assert_eq!(result_of(&acts[0]), Some((ActionKind::CancelOrder, true, "order 9 cancelled".to_string())));
    assert!(matches!(acts[1], EngineAction::Refresh(Section::Portfolio)));
    assert!(matches!(&acts[2], EngineAction::Refresh(Section::Book(t)) if t == "tok"));
}

#[test]
fn stray_reply_changes_nothing() {
    let mut s = EngineState::new();
    assert!(step(&mut s, EngineEvent::Reply(Reply::Refreshed(true))).is_empty());
    step(&mut s, EngineEvent::Command(Command::RevokeKey { username: "bob".to_string() }));
    assert!(step(&mut s, EngineEvent::Reply(Reply::Refreshed(true))).is_empty());
    assert!(s.awaiting.is_some());
}

#[test]
fn refresh_leaderboard_reloads_roster_before_reporting() {
    let mut s = EngineState::new();
    step(&mut s, EngineEvent::Command(Command::RefreshLeaderboard));
    let acts = step(&mut s, EngineEvent::Reply(Reply::Refreshed(true)));
    assert!(matches!(acts[0], EngineAction::Refresh(Section::Roster)));
    assert_eq!(result_of(&acts[1]), Some((ActionKind::RefreshLeaderboard, true, "leaderboard".to_string())));
}
