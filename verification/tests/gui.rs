use predlab::gui::{roster_step, RosterChange};
use predlab::gui::{delete_armed, next_page, prev_page, reset_all_armed};
use predlab::gui::{
    action_toast, is_order_action, quotes_from, Midpoint, Spread, admin_header, base_url, cancel_result, cancellable, kind_label, markets_query, medal,
    order_result, reset_detail, revoked_detail, roster_denied, roster_plan, status_error, unlocked,
    validate_step, ActionKind, ApiError, Config, MarketsState, OrderSide, PolyCancelResponse,
    PolyOrderResponse, RevokedKey, Role, RosterPlan, Selection, Toast, Wizard, MARKET_LIMIT_MAX,
    MARKET_LIMIT_MIN, TICK_SECONDS_MAX, TICK_SECONDS_MIN,
};

#[test]
fn creds_helper() {
    let mut cfg = Config::default();
    assert!(!cfg.has_poly_creds());
    cfg.poly_api_key = "pm_paper_1".to_string();
    assert!(cfg.has_poly_creds());
}

#[test]
fn role_wire_values() {
    assert_eq!(Role::Member.as_wire(), "member");
    assert_eq!(Role::Admin.as_wire(), "admin");
    assert_eq!(Role::Owner.as_wire(), "owner");
}

#[test]
fn open_like_statuses_are_cancellable() {
    for s in ["open", "OPEN", "partially_filled", "partial", "resting", "pending"] {
        assert!(cancellable(s), "{s} should be cancellable");
    }
}

#[test]
fn terminal_statuses_are_not_cancellable() {
    for s in ["filled", "cancelled", "canceled", "expired", "rejected", ""] {
        assert!(!cancellable(s), "{s} should not be cancellable");
    }
}

#[test]
fn defaults_and_clamping() {
    let cfg = Config::default();
    assert_eq!(cfg.poly_url, "https://poly.teddytennant.com");
    assert_eq!(cfg.leaderboard_url, "https://predlab.teddytennant.com");
    assert_eq!(cfg.tick_seconds, 3);
    assert_eq!(cfg.market_limit, 50);
    assert!(!cfg.onboarded);
    let mut c = Config { tick_seconds: 0, market_limit: 99_999, ..Config::default() };
    c.clamp();
    assert_eq!(c.tick_seconds, TICK_SECONDS_MIN);
    assert_eq!(c.market_limit, MARKET_LIMIT_MAX);
    let mut c = Config { tick_seconds: 999, market_limit: 0, ..Config::default() };
    c.clamp();
    assert_eq!(c.tick_seconds, TICK_SECONDS_MAX);
    assert_eq!(c.market_limit, MARKET_LIMIT_MIN);
    let again = c.clone();
    c.clamp();
    assert_eq!(c, again);
}

#[test]
fn admin_secret_falls_back_to_env_values() {
    let raw = Config::default();
    let cfg = Config::from_loaded(raw.clone(), &[Some(String::new()), Some("fallback".into())]);
    assert_eq!(cfg.poly_admin_secret, "fallback");
    let cfg = Config::from_loaded(raw.clone(), &[Some("s3cret".into()), Some("fallback".into())]);
    assert_eq!(cfg.poly_admin_secret, "s3cret");
    let with_secret = Config { poly_admin_secret: "from-file".into(), ..raw };
    let cfg = Config::from_loaded(with_secret, &[Some("ignored".into())]);
    assert_eq!(cfg.poly_admin_secret, "from-file");
}

#[test]
fn labels_and_medals() {
    assert_eq!(kind_label(ActionKind::FetchAdminUser), "member detail");
    assert_eq!(kind_label(ActionKind::RefreshLeaderboard), "leaderboard");
    assert_eq!(OrderSide::Sell.as_wire(), "SELL");
    assert_eq!(Role::Owner.label(), "owner");
    assert_eq!(medal(1), "🥇 ");
    assert_eq!(medal(3), "🥉 ");
    assert_eq!(medal(4), "");
}

#[test]
fn api_errors_show_status_and_body() {
    let e = status_error(403, "forbidden".into()).unwrap();
    assert_eq!(e.status(), Some(403));
    assert_eq!(e.message(), "HTTP 403: forbidden");
    assert!(roster_denied(&e));
    assert!(status_error(204, String::new()).is_none());
    let t = ApiError::Transport("refused".into());
    assert_eq!(t.status(), None);
    assert_eq!(t.message(), "transport: refused");
    assert!(!roster_denied(&t));
    assert!(!roster_denied(&ApiError::Status { status: 500, body: String::new() }));
}

#[test]
fn roster_probe_plan() {
    assert_eq!(roster_plan(false, false, None), RosterPlan::Lock);
    assert_eq!(roster_plan(false, true, Some(false)), RosterPlan::Skip);
    assert_eq!(roster_plan(true, true, Some(false)), RosterPlan::Probe);
    assert_eq!(roster_plan(false, true, None), RosterPlan::Probe);
    assert!(unlocked("secret", None));
    assert!(unlocked("", Some(true)));
    assert!(!unlocked("", Some(false)));
}

#[test]
fn order_results_surface_sim_messages() {
    let ok = PolyOrderResponse { success: true, order_id: "17".into(), status: "open".into(), error_msg: None };
    assert_eq!(order_result(&ok), (true, "order 17 open".to_string()));
    let bad = PolyOrderResponse {
        success: false,
        order_id: "0".into(),
        status: "error".into(),
        error_msg: Some("insufficient balance".into()),
    };
    assert_eq!(order_result(&bad), (false, "insufficient balance".to_string()));
    let bare = PolyOrderResponse { error_msg: None, ..bad };
    assert_eq!(order_result(&bare).1, "order rejected");
    let c = PolyCancelResponse { success: true, order_id: "17".into(), status: "cancelled".into() };
    assert_eq!(cancel_result(&c), (true, "order 17 cancelled".to_string()));
    assert_eq!(reset_detail(None), "reset ALL members");
    assert_eq!(reset_detail(Some("al")), "reset al");
    let r = RevokedKey { revoked: "alice".into(), keys_disabled: 2 };
    assert_eq!(revoked_detail(&r), "revoked alice (2 keys disabled)");
}

#[test]
fn requests_are_built_from_config() {
    assert_eq!(base_url("http://localhost:8001//"), "http://localhost:8001");
    assert_eq!(base_url("http://x"), "http://x");
    let (k, v) = admin_header("pm_paper_1", "");
    assert_eq!((k.as_str(), v.as_str()), ("POLY_API_KEY", "pm_paper_1"));
    let (k, v) = admin_header("pm_paper_1", "s");
    assert_eq!((k.as_str(), v.as_str()), ("X-Admin-Secret", "s"));
    let q = markets_query(50, 100, "");
    assert_eq!(q.len(), 3);
    assert_eq!(q[1], ("limit".to_string(), "50".to_string()));
    let q = markets_query(50, 0, "rain");
    assert_eq!(q[3], ("q".to_string(), "rain".to_string()));
}

#[test]
fn selection_pairs_outcomes_with_tokens() {
    let s = Selection::for_market(
        "m1".into(),
        "Q?".into(),
        &["Yes".to_string(), "No".to_string()],
        Some(vec!["t-yes".to_string(), "t-no".to_string()]),
    );
    assert_eq!(s.token_id(), Some("t-yes"));
    assert_eq!(s.outcome_name(), "Yes");
    let s = Selection::for_market("m2".into(), "Q".into(), &[], Some(vec!["a".into(), "b".into()]));
    assert_eq!(s.tokens[1], ("Outcome 2".to_string(), "b".to_string()));
    let s = Selection::for_market("m3".into(), "Q".into(), &["Yes".to_string()], None);
    assert_eq!(s.token_id(), None);
    assert_eq!(s.outcome_name(), "?");
}

#[test]
fn debounced_search_sends_each_change_once() {
    let mut m = MarketsState::new();
    assert!(!m.search_pending());
    assert_eq!(m.due_search_after(true), None);
    m.search = "rain".into();
    m.offset = 50;
    m.pending_since = Some(std::time::Instant::now());
    assert!(m.search_pending());
    assert_eq!(m.due_search_after(false), None);
    assert!(m.search_pending());
    assert_eq!(m.due_search_after(true), Some("rain".to_string()));
    assert_eq!(m.offset, 0);
    assert!(!m.search_pending());
    m.pending_since = Some(std::time::Instant::now());
    assert_eq!(m.due_search_after(true), None);
}

#[test]
fn wizard_requires_both_urls_on_the_servers_step() {
    let w = Wizard::new();
    assert_eq!(w.step, 0);
    assert_eq!(validate_step(1, "  ", "http://x"), Some("both server URLs are required".to_string()));
    assert_eq!(validate_step(1, "http://a", "http://b"), None);
    assert_eq!(validate_step(0, "", ""), None);
}

#[test]
fn toasts_keep_their_text() {
    let t = Toast::new(false, "order: rejected".into());
    assert!(!t.is_ok());
    assert_eq!(t.text(), "order: rejected");
    assert!(t.age().as_secs() < 5);
}

#[test]
fn action_results_become_toasts_unless_quiet() {
    assert_eq!(action_toast(ActionKind::SetSearch, true, "search: \"x\""), None);
    assert_eq!(action_toast(ActionKind::SetSearch, false, "boom"), Some("search: boom".to_string()));
    assert_eq!(action_toast(ActionKind::PlaceOrder, true, "order 17 open"), Some("order: order 17 open".to_string()));
    assert!(is_order_action(ActionKind::CancelOrder));
    assert!(!is_order_action(ActionKind::IssueKey));
}

#[test]
fn quotes_need_both_answers() {
    let q = quotes_from(Ok(Midpoint { midpoint: "0.62".into() }), Ok(Spread { spread: "0.02".into() })).unwrap();
    assert_eq!((q.midpoint.as_str(), q.spread.as_str()), ("0.62", "0.02"));
    assert!(quotes_from(Ok(Midpoint { midpoint: "0.62".into() }), Err(ApiError::Decode("x".into()))).is_none());
}

#[test]
fn market_paging_steps_by_one_page() {
    assert_eq!(prev_page(0, 50), None);
    assert_eq!(prev_page(30, 50), Some(0));
    assert_eq!(prev_page(100, 50), Some(50));
    assert_eq!(next_page(50, 50, 50), Some(100));
    assert_eq!(next_page(50, 50, 12), None);
}

#[test]
fn destructive_buttons_confirm_within_the_window() {
    assert!(delete_armed(Some(("bob", 1200)), "bob"));
    assert!(!delete_armed(Some(("bob", 1200)), "alice"));
    assert!(!delete_armed(Some(("bob", 5000)), "bob"));
    assert!(!delete_armed(None, "bob"));
    assert!(reset_all_armed(Some(4999)));
    assert!(!reset_all_armed(Some(5000)));
    assert!(!reset_all_armed(None));
}

#[test]
fn roster_refresh_outcomes() {
    let lock = roster_step::<Vec<u8>>(RosterPlan::Lock, None);
    assert_eq!(lock.admin_ok, Some(Some(false)));
    assert!(matches!(lock.roster, RosterChange::Keep) && lock.error.is_none() && !lock.ok);
    let skip = roster_step::<Vec<u8>>(RosterPlan::Skip, None);
    assert!(skip.admin_ok.is_none() && matches!(skip.roster, RosterChange::Keep) && skip.error.is_none());
    let rows = roster_step(RosterPlan::Probe, Some(Ok(vec![1u8, 2])));
    assert_eq!(rows.admin_ok, Some(Some(true)));
    assert!(matches!(rows.roster, RosterChange::Replace(ref r) if r == &vec![1u8, 2]));
    assert_eq!(rows.error, Some(None));
    assert!(rows.ok);
    let denied = roster_step::<Vec<u8>>(
        RosterPlan::Probe,
        Some(Err(ApiError::Status { status: 403, body: "forbidden".to_string() })),
    );
    assert_eq!(denied.admin_ok, Some(Some(false)));
    assert!(matches!(denied.roster, RosterChange::Clear) && denied.error == Some(None) && !denied.ok);
    let down = roster_step::<Vec<u8>>(RosterPlan::Probe, Some(Err(ApiError::Transport("refused".to_string()))));
    assert!(down.admin_ok.is_none() && matches!(down.roster, RosterChange::Keep));
    assert_eq!(down.error, Some(Some("transport: refused".to_string())));
}
