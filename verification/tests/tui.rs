use std::time::{Duration, Instant};

use predlab::tui::{
    fmt_age, fmt_age_secs, next_tab, prev_tab, App, FetchMsg, KeyCode, KeyEvent, KeyOutcome,
    LeaderRow, LoadState, Market, Mode, Portfolio, Position, Tab, HISTORY_CAP,
};

fn k(c: char) -> KeyEvent {
    KeyEvent::new(KeyCode::Char(c), false)
}

fn key(code: KeyCode) -> KeyEvent {
    KeyEvent::new(code, false)
}

fn row(name: &str, cents: i64) -> LeaderRow {
    LeaderRow { username: name.to_string(), net_worth: cents, rank: None }
}

fn market(slot: usize, question: &str, category: Option<&str>) -> Market {
    Market { slot, question: question.to_string(), category: category.map(|c| c.to_string()) }
}

#[test]
fn tab_indices_round_trip() {
    for t in Tab::ALL {
        assert_eq!(Tab::from_index(t.index()), t);
    }
}

#[test]
fn tab_titles_and_clamped_positions() {
    assert_eq!(Tab::Leaderboard.title(), "LEADERBOARD");
    assert_eq!(Tab::Help.title(), "HELP");
    assert_eq!(Tab::from_index(99), Tab::Help);
    for t in Tab::ALL {
        assert_eq!(prev_tab(next_tab(t)), t);
        assert_eq!(next_tab(prev_tab(t)), t);
    }
    assert_eq!(next_tab(Tab::Help), Tab::Leaderboard);
    assert_eq!(prev_tab(Tab::Leaderboard), Tab::Help);
}

#[test]
fn vim_jk_navigates_within_bounds() {
    let mut app = App::new(false);
    app.leaderboard = LoadState::Loaded {
        data: vec![row("a", 100), row("b", 200), row("c", 300)],
        at: Instant::now(),
    };
    app.handle_key(k('j'));
    assert_eq!(app.leaderboard_sel, 1);
    app.handle_key(k('k'));
    assert_eq!(app.leaderboard_sel, 0);
    app.handle_key(k('k'));
    assert_eq!(app.leaderboard_sel, 0);
    app.handle_key(k('G'));
    assert_eq!(app.leaderboard_sel, 2);
    app.handle_key(k('g'));
    app.handle_key(k('g'));
    assert_eq!(app.leaderboard_sel, 0);
}

#[test]
fn number_keys_jump_to_tab() {
    let mut app = App::new(false);
    app.handle_key(k('2'));
    assert_eq!(app.tab, Tab::Markets);
    app.handle_key(k('4'));
    assert_eq!(app.tab, Tab::Help);
    app.handle_key(k('1'));
    assert_eq!(app.tab, Tab::Leaderboard);
}

#[test]
fn l_and_h_cycle_tabs() {
    let mut app = App::new(false);
    app.handle_key(k('l'));
    assert_eq!(app.tab, Tab::Markets);
    app.handle_key(k('l'));
    assert_eq!(app.tab, Tab::Portfolio);
    app.handle_key(k('h'));
    assert_eq!(app.tab, Tab::Markets);
}

#[test]
fn colon_q_quits() {
    let mut app = App::new(false);
    app.handle_key(k(':'));
    assert_eq!(app.mode, Mode::Command);
    app.handle_key(k('q'));
    app.handle_key(key(KeyCode::Enter));
    assert!(app.should_quit);
    assert_eq!(app.mode, Mode::Normal);
}

#[test]
fn unknown_command_reports_error() {
    let mut app = App::new(false);
    app.handle_key(k(':'));
    for c in "zxc".chars() {
        app.handle_key(k(c));
    }
    app.handle_key(key(KeyCode::Enter));
    assert!(app.status.starts_with("Unknown command"));
    assert_eq!(app.status, "Unknown command: :zxc");
    assert!(!app.should_quit);
}

#[test]
fn search_filters_leaderboard() {
    let mut app = App::new(false);
    app.leaderboard = LoadState::Loaded {
        data: vec![row("alice", 500), row("bob", 400), row("alicia", 300)],
        at: Instant::now(),
    };
    app.handle_key(k('/'));
    for c in "ali".chars() {
        app.handle_key(k(c));
    }
    app.handle_key(key(KeyCode::Enter));
    let filtered = app.filtered_leaderboard().unwrap();
    assert_eq!(filtered.len(), 2);
    assert_eq!(filtered[0].username, "alice");
    assert_eq!(filtered[1].username, "alicia");
    assert_eq!(app.status, "Filter: /ali");
    assert_eq!(app.current_list_len(), 2);
}

#[test]
fn esc_clears_search_before_quitting() {
    let mut app = App::new(false);
    app.last_search = "ali".into();
    app.handle_key(key(KeyCode::Esc));
    assert!(!app.should_quit);
    assert!(app.last_search.is_empty());
    assert_eq!(app.status, "Search cleared.");
    app.handle_key(key(KeyCode::Esc));
    assert!(app.should_quit);
}

#[test]
fn ctrl_c_quits_from_any_mode() {
    let mut app = App::new(false);
    app.mode = Mode::Command;
    app.handle_key(KeyEvent::new(KeyCode::Char('c'), true));
    assert!(app.should_quit);
}

#[test]
fn fetch_clamps_its_own_tabs_selection_not_the_active_one() {
    let mut app = App::new(false);
    app.tab = Tab::Markets;
    app.markets_sel = 40;
    app.tab = Tab::Leaderboard;
    app.leaderboard = LoadState::Loaded {
        data: (0..100).map(|i| row(&format!("u{i}"), i)).collect(),
        at: Instant::now(),
    };
    let five: Vec<Market> = (0..5).map(|i| market(i, "", None)).collect();
    app.apply_fetch(FetchMsg::Markets(Ok(five)));
    assert_eq!(app.markets_sel, 4, "markets_sel clamped to its own length");
    assert_eq!(app.leaderboard_sel, 0);
}

#[test]
fn fmt_age_formats_into_buckets() {
    assert_eq!(fmt_age(Duration::from_secs(5)), "5s ago");
    assert_eq!(fmt_age(Duration::from_secs(125)), "2m ago");
    assert_eq!(fmt_age(Duration::from_secs(7300)), "2h ago");
}

#[test]
fn age_bucket_edges() {
    assert_eq!(fmt_age_secs(59), "59s ago");
    assert_eq!(fmt_age_secs(60), "1m ago");
    assert_eq!(fmt_age_secs(3599), "59m ago");
    assert_eq!(fmt_age_secs(3600), "1h ago");
}

#[test]
fn tab_command_jumps_and_rejects_out_of_range() {
    let mut app = App::new(true);
    assert_eq!(app.status, "Connected. Press ? for help, : for commands.");
    for (line, tab) in [(" tab 3 ", Tab::Portfolio), ("tab +2", Tab::Markets), ("tab 4", Tab::Help)] {
        app.handle_key(k(':'));
        for c in line.chars() {
            app.handle_key(k(c));
        }
        app.handle_key(key(KeyCode::Enter));
        assert_eq!(app.tab, tab);
    }
    app.handle_key(k(':'));
    for c in "tab 9".chars() {
        app.handle_key(k(c));
    }
    app.handle_key(key(KeyCode::Enter));
    assert_eq!(app.status, "Unknown tab: 9 (1–4)");
    assert_eq!(app.tab, Tab::Help);
    app.handle_key(k(':'));
    for c in "tab x".chars() {
        app.handle_key(k(c));
    }
    app.handle_key(key(KeyCode::Enter));
    assert_eq!(app.status, "Unknown tab: 9 (1–4)");
}

#[test]
fn refresh_keys_report_to_the_loop() {
    let mut app = App::new(false);
    app.handle_key(k('2'));
    assert_eq!(app.handle_key(k('r')), KeyOutcome::RefreshTab(Tab::Markets));
    assert_eq!(app.handle_key(k('R')), KeyOutcome::RefreshAll);
    app.handle_key(k(':'));
    for c in "refresh".chars() {
        app.handle_key(k(c));
    }
    assert_eq!(app.handle_key(key(KeyCode::Enter)), KeyOutcome::RefreshTab(Tab::Markets));
}

#[test]
fn backspace_on_empty_command_leaves_command_mode() {
    let mut app = App::new(false);
    app.handle_key(k(':'));
    app.handle_key(k('x'));
    app.handle_key(key(KeyCode::Backspace));
    assert_eq!(app.command, "");
    assert_eq!(app.mode, Mode::Command);
    app.handle_key(key(KeyCode::Backspace));
    assert_eq!(app.mode, Mode::Normal);
}

#[test]
fn market_search_matches_question_or_category_case_insensitively() {
    let mut app = App::new(false);
    app.markets = LoadState::Loaded {
        data: vec![
            market(0, "Will it RAIN?", None),
            market(1, "Election", Some("Politics")),
            market(2, "Other", Some("sports")),
        ],
        at: Instant::now(),
    };
    app.last_search = "rain".into();
    let m = app.filtered_markets().unwrap();
    assert_eq!(m.len(), 1);
    assert_eq!(m[0].slot, 0);
    app.last_search = "POLI".into();
    let m = app.filtered_markets().unwrap();
    assert_eq!(m.len(), 1);
    assert_eq!(m[0].slot, 1);
}

#[test]
fn portfolio_fetch_records_net_worth_and_caps_history() {
    let mut app = App::new(true);
    for i in 0..(HISTORY_CAP as i64 + 5) {
        app.apply_fetch(FetchMsg::Portfolio {
            portfolio: Ok(Portfolio { cash: i, positions_value: 0, open_orders_value: 0, net_worth: i }),
            positions: Ok(vec![Position { slot: 0, market_id: "m".into() }]),
        });
    }
    assert_eq!(app.net_worth_history.len(), HISTORY_CAP);
    assert_eq!(*app.net_worth_history.back().unwrap(), HISTORY_CAP as i64 + 4);
    assert_eq!(*app.net_worth_history.front().unwrap(), 5);
    assert!(app.portfolio.data().is_some());
    app.apply_fetch(FetchMsg::Portfolio {
        portfolio: Err("down".into()),
        positions: Err("down".into()),
    });
    assert!(matches!(app.portfolio, LoadState::Error(ref e) if e == "down"));
    assert_eq!(app.net_worth_history.len(), HISTORY_CAP);
}

#[test]
fn loading_marks_and_load_timestamps() {
    let mut app = App::new(true);
    app.mark_loading(Tab::Portfolio);
    assert!(app.portfolio.is_loading() && app.positions.is_loading());
    assert!(app.elapsed_since_load(Tab::Portfolio).is_none());
    app.apply_fetch(FetchMsg::Leaderboard(Ok(vec![row("a", 1)])));
    assert!(app.leaderboard.loaded_at().is_some());
    assert!(app.elapsed_since_load(Tab::Leaderboard).is_some());
    assert!(app.elapsed_since_load(Tab::Help).is_none());
}

#[test]
fn sparkline_summary_rebases_to_the_minimum() {
    assert!(predlab::tui::spark_summary(&[2_500_000]).is_none());
    let sp = predlab::tui::spark_summary(&[2_500_000, 2_400_000, -5, 2_650_000]).unwrap();
    assert_eq!(sp.min, 0);
    assert_eq!(sp.max, 26_500);
    assert_eq!(sp.change, 1_500);
    assert!(sp.rising);
    assert_eq!(sp.bars, vec![25_001, 24_001, 1, 26_501]);
    let down = predlab::tui::spark_summary(&[30_000, 10_000]).unwrap();
    assert!(!down.rising);
    assert_eq!(down.change, -200);
    assert_eq!(down.bars, vec![201, 1]);
}

#[test]
fn sparkline_counts_whole_dollars_only() {
    let sp = predlab::tui::spark_summary(&[2_500_040, 2_500_090]).unwrap();
    assert_eq!(sp.change, 0);
    assert!(sp.rising);
    assert_eq!(sp.bars, vec![1, 1]);
    assert_eq!(sp.min, 25_000);
}

#[test]
fn navigation_without_search_moves_over_all_rows() {
    let mut app = App::new(false);
    app.leaderboard = LoadState::Loaded {
        data: vec![row("alice", 500), row("bob", 400), row("carol", 300)],
        at: Instant::now(),
    };
    assert_eq!(app.current_list_len(), 3);
    app.handle_key(k('j'));
    assert_eq!(app.leaderboard_sel, 1);
    assert_eq!(app.filtered_leaderboard().unwrap().len(), 3);
}
