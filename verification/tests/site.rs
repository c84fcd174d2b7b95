use predlab::money::fmt_pnl;
use predlab::site::board::{club_stats, parse_name_list, render_page, select_leaders, Leader};
use predlab::site::pages::{
    document, fmt_date, fmt_time_short, page_shell, render_about_page, render_error,
    render_profile_error, render_start_page, render_tui_page,
};
use predlab::site::table::{build_table, build_table_cells, cell, Align, Cell};
use predlab::text::{esc, truncate, url_path_encode};

fn leader(name: &str, net_cents: i64) -> Leader {
    Leader { username: name.to_string(), net_worth: net_cents, cash: net_cents, positions_value: 0 }
}

#[test]
fn table_lists_members_in_order() {
    let rows = vec![leader("alice", 5_500_000), leader("bob", 4_000_000)];
    let html = render_page(&rows, 2_500_000);
    assert!(html.contains("MEMBER") && html.contains("NET WORTH"));
    assert!(html.contains("alice"));
    assert!(html.contains("$55,000.00"));
    assert!(html.find("alice").unwrap() < html.find("bob").unwrap());
    assert!(html.contains('┌') && html.contains('│'));
    assert!(!html.contains('🥇'));
}

#[test]
fn empty_roster_renders_placeholder() {
    assert!(render_page(&[], 2_500_000).contains("no members yet"));
}

#[test]
fn board_has_pnl_column_and_club_stats() {
    let rows = vec![leader("alice", 3_000_000), leader("bob", 2_000_000)];
    let html = render_page(&rows, 2_500_000);
    assert!(html.contains("P&amp;L"));
    assert!(html.contains("+$5,000.00"));
    assert!(html.contains("-$5,000.00"));
    assert!(html.contains("# club stats"));
    assert!(html.contains("members"));
    assert!(html.contains("paper AUM"));
    assert!(html.contains("$50,000.00"));
    assert!(html.contains("beating start"));
    assert!(html.contains("1 / 2"));
}

#[test]
fn numeric_username_links_to_its_own_profile_not_rank_digits() {
    let html = render_page(&[leader("1", 3_000_000), leader("2", 2_000_000)], 2_500_000);
    assert!(html.contains(r#"<a href="/u/1">1</a>"#));
    assert!(html.contains(r#"<a href="/u/2">2</a>"#));
}

#[test]
fn leaderboard_links_to_start_and_tui_pages() {
    let html = render_page(&[leader("alice", 2_500_000)], 2_500_000);
    assert!(html.contains(r#"href="/start""#));
    assert!(html.contains(r#"href="/tui""#));
    assert!(html.contains(r#"href="/markets""#));
    assert!(html.contains(r#"href="/about""#));
    assert!(!html.contains("pip install requests"));
}

#[test]
fn start_page_has_onboarding_and_download_button() {
    let html = render_start_page();
    assert!(html.contains("get started"));
    assert!(html.contains(r#"href="/predlab.py""#));
    assert!(html.contains("download=\"predlab.py\""));
    assert!(html.contains("pip install requests"));
    assert!(html.contains(r#"href="/""#));
    assert!(!html.contains("http-equiv=\"refresh\""));
}

#[test]
fn username_is_escaped() {
    let html = render_page(&[leader("<script>", 0)], 2_500_000);
    assert!(!html.contains("<script>"));
    assert!(html.contains("&lt;script&gt;"));
}

#[test]
fn leaderboard_username_is_a_link_to_profile() {
    let html = render_page(&[leader("teddy", 2_944_444)], 2_500_000);
    assert!(html.contains(r#"<a href="/u/teddy">teddy</a>"#));
}

#[test]
fn url_path_encode_preserves_safe_chars_and_encodes_unsafe() {
    assert_eq!(url_path_encode("teddy_42.bot-1"), "teddy_42.bot-1");
    assert_eq!(url_path_encode("a/b c"), "a%2Fb%20c");
    assert_eq!(url_path_encode("<script>"), "%3Cscript%3E");
}

#[test]
fn fmt_time_short_drops_seconds_and_tz() {
    assert_eq!(fmt_time_short("2026-05-22T16:39:27.340254"), "2026-05-22 16:39");
    assert_eq!(fmt_time_short("2026-01-01T00:00:00"), "2026-01-01 00:00");
}

#[test]
fn profile_error_page_includes_username_and_back_link() {
    let html = render_profile_error("teddy", "boom");
    assert!(html.contains("predlab member · teddy"));
    assert!(html.contains("boom"));
    assert!(html.contains(r#"href="/""#));
}

#[test]
fn tui_page_has_install_run_and_keys_sections() {
    let html = render_tui_page();
    assert!(html.contains("cargo install --git"));
    assert!(html.contains("predlab-tui"));
    assert!(html.contains("POLY_API_KEY"));
    assert!(html.contains("gg") && html.contains(": cmd"));
    assert!(html.contains(r#"href="/""#));
    assert!(html.contains(r#"href="/start""#));
    assert!(!html.contains("http-equiv=\"refresh\""));
}

#[test]
fn start_page_links_to_tui_install() {
    let html = render_start_page();
    assert!(html.contains(r#"href="/tui""#));
}

#[test]
fn fmt_pnl_signs_gains_and_losses() {
    assert_eq!(fmt_pnl(444_450), "+$4,444.50");
    assert_eq!(fmt_pnl(-120_000), "-$1,200.00");
    assert_eq!(fmt_pnl(0), "$0.00");
}

#[test]
fn about_page_explains_money_and_score() {
    let html = render_about_page();
    assert!(html.contains("what is predlab"));
    assert!(html.contains("$25,000"));
    assert!(html.contains("net worth ="));
    assert!(html.contains("escrowed"));
    assert!(html.contains(r#"href="/""#));
    assert!(!html.contains("http-equiv=\"refresh\""));
}

#[test]
fn escaping_leaves_no_markup_characters() {
    let out = esc("<a href='x'>\"T&C\"</a>");
    assert_eq!(out, "&lt;a href='x'&gt;&quot;T&amp;C&quot;&lt;/a&gt;");
    for bad in ['<', '>', '"'] {
        assert!(!out.contains(bad));
    }
}

#[test]
fn url_encoding_round_trips_through_percent_decoding() {
    let name = "héllo wörld/<>";
    let enc = url_path_encode(name);
    let mut bytes = Vec::new();
    let b = enc.as_bytes();
    let mut i = 0;
    while i < b.len() {
        if b[i] == b'%' {
            let hex = std::str::from_utf8(&b[i + 1..i + 3]).unwrap();
            bytes.push(u8::from_str_radix(hex, 16).unwrap());
            i += 3;
        } else {
            bytes.push(b[i]);
            i += 1;
        }
    }
    assert_eq!(String::from_utf8(bytes).unwrap(), name);
}

#[test]
fn plain_table_pads_and_escapes() {
    let t = build_table(
        &["NAME", "N"],
        &[Align::Left, Align::Right],
        &[vec!["a<b".to_string(), "7".to_string()], vec!["xyz".to_string(), "123".to_string()]],
    );
    assert_eq!(
        t,
        "┌──────┬─────┐\n│ NAME │   N │\n├──────┼─────┤\n│ a&lt;b  │   7 │\n│ xyz  │ 123 │\n└──────┴─────┘"
    );
}

#[test]
fn link_cells_pad_by_visible_text() {
    let c = Cell { visible: "bob".to_string(), html: "<a href=\"/u/bob\">bob</a>".to_string() };
    let t = build_table_cells(&["WHO"], &[Align::Left], &[vec![c], vec![cell("alice")]]);
    assert!(t.contains("│ <a href=\"/u/bob\">bob</a>   │"));
    assert!(t.contains("│ alice │"));
}

#[test]
fn club_stats_average_median_and_totals() {
    let rows = vec![leader("a", 100), leader("b", 401), leader("c", 300), leader("d", 200)];
    let s = club_stats(&rows, 250);
    // total 1001 cents; average 250.25 cents rounds to $2.50; median of
    // 200 and 300 is 250 cents.
    assert!(s.contains("  members       4\n"));
    assert!(s.contains("  paper AUM     $10.01\n"));
    assert!(s.contains("  avg net worth $2.50\n"));
    assert!(s.contains("  median        $2.50\n"));
    assert!(s.contains("  beating start 2 / 4\n"));
    assert!(s.contains("  deployed      $0.00  (free cash $10.01)"));
}

#[test]
fn club_stats_median_rounds_half_cents_away_from_zero() {
    let rows = vec![leader("a", 101), leader("b", 100)];
    let s = club_stats(&rows, 0);
    assert!(s.contains("  median        $1.01\n"));
    let neg = vec![leader("a", -101), leader("b", -100)];
    let s = club_stats(&neg, 0);
    assert!(s.contains("  median        -$1.01\n"));
}

#[test]
fn selection_hides_staff_and_ranks_stably() {
    let rows = vec![
        leader("carol", 300),
        leader("club_admin", 900),
        leader("alice", 500),
        leader("bob", 300),
        leader("demo_trader", 100),
    ];
    let exclude = parse_name_list("club_admin, demo_trader,,");
    assert_eq!(exclude, vec!["club_admin".to_string(), "demo_trader".to_string()]);
    let out = select_leaders(&rows, &exclude);
    let names: Vec<&str> = out.iter().map(|l| l.username.as_str()).collect();
    assert_eq!(names, ["alice", "carol", "bob"]);
}

#[test]
fn name_list_trims_drops_empties_and_duplicates() {
    assert_eq!(parse_name_list(""), Vec::<String>::new());
    assert_eq!(parse_name_list(" a ,b,, a,\tc "), vec!["a", "b", "c"]);
}

#[test]
fn pages_wrap_bodies_in_the_document() {
    let d = document("t<", Some(30), "<b>x</b>");
    assert!(d.contains("<title>t&lt;</title>"));
    assert!(d.contains("<meta http-equiv=\"refresh\" content=\"30\">"));
    assert!(d.ends_with("<b>x</b></main></body>\n</html>"));
    let shell = page_shell("inner");
    assert!(shell.contains("inner") && shell.contains("refreshes every 30s"));
    let err = render_error("<oops>");
    assert!(err.contains("&lt;oops&gt;") && !err.contains("<oops>"));
}

#[test]
fn dates_and_truncation() {
    assert_eq!(fmt_date("2026-05-22T16:39:27"), "2026-05-22");
    assert_eq!(fmt_date("short"), "short");
    assert_eq!(truncate("abcdef", 1), "…");
    assert_eq!(truncate("abcdef", 0), "");
}
