use predlab::admin::{
    creds_block, next_view, prev_view, removed_message, reset_all_done_message, reset_done_message,
    role_blurb, AdminAction, AdminApp, Pending, Screen, Student,
};
use predlab::site::board::Leader;
use predlab::tui::{KeyCode, KeyEvent};

fn student(name: &str, role: &str) -> Student {
    Student {
        username: name.to_string(),
        display_name: name.to_string(),
        poly_key: format!("pm_paper_{name}"),
        kalshi_key: String::new(),
        role: role.to_string(),
        created_at: "2026-01-01T00:00:00Z".to_string(),
    }
}

fn key(code: KeyCode) -> KeyEvent {
    KeyEvent::new(code, false)
}

#[test]
fn views_cycle_both_ways() {
    for v in [Screen::Issue, Screen::Roster, Screen::Leaderboard] {
        assert_eq!(prev_view(next_view(v)), v);
        assert_eq!(next_view(prev_view(v)), v);
    }
    assert_eq!(next_view(Screen::Leaderboard), Screen::Issue);
}

#[test]
fn issue_view_types_letters_including_h_and_l() {
    let mut app = AdminApp::new(vec![]);
    for c in "hal_9!".chars() {
        app.handle_key(key(KeyCode::Char(c)));
    }
    assert_eq!(app.username, "hal_9");
    assert_eq!(app.view, Screen::Issue);
    app.handle_key(key(KeyCode::Backspace));
    assert_eq!(app.username, "hal_");
}

#[test]
fn role_picker_cycles() {
    let mut app = AdminApp::new(vec![]);
    assert_eq!(app.role(), "member");
    app.handle_key(key(KeyCode::Right));
    assert_eq!(app.role(), "admin");
    app.handle_key(key(KeyCode::Down));
    assert_eq!(app.role(), "owner");
    app.handle_key(key(KeyCode::Right));
    assert_eq!(app.role(), "member");
    app.handle_key(key(KeyCode::Left));
    assert_eq!(app.role(), "owner");
}

#[test]
fn destructive_actions_need_a_yes() {
    let mut app = AdminApp::new(vec![student("alice", "member"), student("bob", "admin")]);
    assert!(matches!(app.handle_key(key(KeyCode::Tab)), AdminAction::Nothing));
    assert_eq!(app.view, Screen::Roster);
    app.handle_key(key(KeyCode::Char('j')));
    assert_eq!(app.roster_sel, 1);
    app.handle_key(key(KeyCode::Char('x')));
    assert_eq!(app.pending, Pending::RemoveMember("bob".into()));
    assert_eq!(app.message, "⚠ PERMANENTLY remove bob from the sim and roster? Press y to confirm.");
    let act = app.handle_key(key(KeyCode::Char('n')));
    assert!(matches!(act, AdminAction::Nothing));
    assert_eq!(app.pending, Pending::Nothing);
    assert_eq!(app.message, "Cancelled.");
    app.handle_key(key(KeyCode::Char('r')));
    let act = app.handle_key(key(KeyCode::Char('Y')));
    match act {
        AdminAction::Confirm(Pending::ResetMember(u)) => assert_eq!(u, "bob"),
        other => panic!("unexpected {other:?}"),
    }
    assert_eq!(app.pending, Pending::Nothing);
}

#[test]
fn roster_moves_stay_in_range_and_empty_roster_says_so() {
    let mut app = AdminApp::new(vec![]);
    app.handle_key(key(KeyCode::Tab));
    app.handle_key(key(KeyCode::Char('j')));
    assert_eq!(app.roster_sel, 0);
    app.handle_key(key(KeyCode::Char('r')));
    assert_eq!(app.message, "Roster is empty — nothing to reset.");
    assert_eq!(app.pending, Pending::Nothing);
    app.handle_key(key(KeyCode::Char('R')));
    assert_eq!(app.pending, Pending::ResetAll);
}

#[test]
fn switching_to_leaderboard_asks_for_a_refresh() {
    let mut app = AdminApp::new(vec![]);
    app.handle_key(key(KeyCode::Tab));
    let act = app.handle_key(key(KeyCode::Char('l')));
    assert!(matches!(act, AdminAction::RefreshLeaderboard));
    assert_eq!(app.view, Screen::Leaderboard);
    assert!(matches!(app.handle_key(key(KeyCode::Char('r'))), AdminAction::RefreshLeaderboard));
    app.handle_key(key(KeyCode::Char('q')));
    assert!(app.should_quit);
}

#[test]
fn leaderboard_results_are_ranked_or_reported() {
    let mut app = AdminApp::new(vec![]);
    let rows = vec![
        Leader { username: "a".into(), net_worth: 1, cash: 0, positions_value: 0 },
        Leader { username: "b".into(), net_worth: 3, cash: 0, positions_value: 0 },
    ];
    app.leaderboard_loaded(Ok(rows));
    assert_eq!(app.message, "2 members ranked by net worth. Press r to refresh.");
    assert_eq!(app.leaders[0].username, "b");
    app.leaderboard_loaded(Err("boom".into()));
    assert_eq!(app.message, "❌ boom");
    assert_eq!(app.leaders.len(), 2);
}

#[test]
fn issuing_trims_the_name_and_reports() {
    let mut app = AdminApp::new(vec![]);
    assert!(app.begin_issue().is_none());
    assert_eq!(app.message, "Enter a username first.");
    app.username = "  carol ".into();
    app.handle_key(key(KeyCode::Right));
    let (u, r) = app.begin_issue().unwrap();
    assert_eq!((u.as_str(), r.as_str()), ("carol", "admin"));
    assert_eq!(app.message, "Issuing a admin key for 'carol'…");
    app.issue_saved(u, r, "pm_paper_x".into(), vec![student("carol", "admin")], false);
    assert_eq!(app.message, "✅ Issued a admin key for carol. (Install wl-copy to auto-copy.)");
    assert!(app.username.is_empty());
    assert_eq!(app.last.as_ref().unwrap().poly_key, "pm_paper_x");
}

#[test]
fn credentials_block_names_the_sim() {
    let b = creds_block("alice", "member", "pm_paper_k", "http://localhost:8001");
    assert!(b.starts_with("PredLab credentials for alice (role: member)\n\nbase URL: http://localhost:8001\n"));
    assert!(b.contains("  API key:  pm_paper_k\n"));
    assert!(b.ends_with("(set POLY_KEY and trade).\n"));
    let mut app = AdminApp::new(vec![student("alice", "member")]);
    let (name, block) = app.copy_target("http://x").unwrap();
    assert_eq!(name, "alice");
    assert!(block.contains("pm_paper_alice"));
    app.copy_finished(&name, true);
    assert_eq!(app.message, "📋 Copied alice's credentials to the clipboard.");
}

#[test]
fn blurbs_and_replies() {
    assert_eq!(role_blurb("admin"), "issue/revoke keys & reset balances — e.g. the VP");
    assert_eq!(role_blurb("nobody"), "trades & views only their own account (the default)");
    assert_eq!(reset_done_message("al"), "♻ Reset al to the starting balance.");
    assert_eq!(reset_all_done_message(), "♻ Reset ALL members to the starting balance.");
    assert_eq!(removed_message("al"), "🗑 Removed al from the sim and the roster.");
}

#[test]
fn removal_reload_clamps_selection() {
    let mut app = AdminApp::new(vec![student("a", "member"), student("b", "member")]);
    app.roster_sel = 1;
    app.roster_reloaded(vec![student("a", "member")]);
    assert_eq!(app.roster_sel, 0);
}
