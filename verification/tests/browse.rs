use predlab::money::format_cents;
use predlab::site::browse::{
    listing_block, markets_page, profile_page, rank_label, render_markets_error, summary_block,
    MARKETS_PAGE,
};
use predlab::site::table::{build_table, Align};
use predlab::text::truncate;

// The YES, SPREAD and VOLUME figures are floating point and are rendered by
// the caller; these rows hold what it renders for the markets in question.
fn market_row(question: &str, yes: &str, spread: &str, vol: &str) -> Vec<String> {
    vec![truncate(question, 52), yes.to_string(), spread.to_string(), vol.to_string()]
}

fn markets_table(rows: &[Vec<String>]) -> String {
    build_table(
        &["MARKET", "YES", "SPREAD", "VOLUME"],
        &[Align::Left, Align::Right, Align::Right, Align::Right],
        rows,
    )
}

#[test]
fn markets_page_renders_table_search_and_questions() {
    let rows = vec![
        market_row("Will it rain tomorrow?", "62%", "4¢", &format_cents(1_234_500)),
        market_row("Will the bill pass?", "10%", "—", "—"),
    ];
    let table = markets_table(&rows);
    let html = markets_page(Some(&table), "rain", 0, rows.len());
    assert!(html.contains("predlab markets"));
    assert!(html.contains("MARKET") && html.contains("YES") && html.contains("SPREAD"));
    assert!(html.contains("Will it rain tomorrow?"));
    assert!(html.contains("62%"));
    assert!(html.contains("$12,345.00"));
    assert!(html.contains("—"));
    assert!(html.contains(r#"value="rain""#));
    assert!(!html.contains("http-equiv=\"refresh\""));
}

#[test]
fn markets_page_paging_links_appear_only_when_warranted() {
    let one = vec![market_row("q", "50%", "—", "—")];
    let html = markets_page(Some(&markets_table(&one)), "", 0, one.len());
    assert!(!html.contains("prev") && !html.contains("next"));
    let full: Vec<Vec<String>> = (0..50).map(|_| market_row("q", "50%", "—", "—")).collect();
    let html = markets_page(Some(&markets_table(&full)), "", 50, full.len());
    assert!(html.contains("prev") && html.contains("next"));
    assert!(html.contains("offset=0") && html.contains("offset=100"));
}

#[test]
fn empty_markets_render_placeholder() {
    let html = markets_page(None, "zzz", 0, 0);
    assert!(html.contains("no markets match"));
}

#[test]
fn markets_page_size_is_fifty() {
    assert_eq!(MARKETS_PAGE, 50);
}

#[test]
fn first_full_page_links_only_forward() {
    let html = markets_page(Some("t"), "a b", 0, 50);
    assert!(!html.contains("prev"));
    assert!(html.contains(r#"<a href="/markets?q=a%20b&offset=50">next →</a>"#));
}

#[test]
fn short_later_page_links_only_back() {
    let html = markets_page(Some("t"), "", 100, 7);
    assert!(html.contains(r#"<a href="/markets?q=&offset=50">← prev</a>"#));
    assert!(!html.contains("next"));
}

#[test]
fn markets_search_box_escapes_the_query() {
    let html = markets_page(Some("t"), "<b>", 0, 50);
    assert!(html.contains(r#"value="&lt;b&gt;""#));
    assert!(!html.contains("<b>"));
    assert!(html.contains("q=%3Cb%3E"));
}

#[test]
fn markets_error_page_escapes_the_message() {
    let html = render_markets_error("upstream <down>");
    assert!(html.contains("markets temporarily unavailable"));
    assert!(html.contains("upstream &lt;down&gt;"));
    assert!(html.contains(r#"href="/""#));
}

#[test]
fn listing_shows_table_or_note() {
    assert_eq!(
        listing_block("positions", None, "no open positions"),
        "<span class=\"dim\"># positions</span>\n\n  <span class=\"dim\">(no open positions)</span>"
    );
    assert_eq!(
        listing_block("recent trades", Some("TABLE"), "no trades yet"),
        "<span class=\"dim\"># recent trades</span>\n\nTABLE"
    );
}

#[test]
fn summary_heading_names_role_unless_member() {
    let plain = summary_block("teddy", "member", "k v");
    assert_eq!(plain, "<span class=\"dim\">$</span> predlab member · teddy\n\nk v");
    let none = summary_block("teddy", "", "k v");
    assert_eq!(none, plain);
    let admin = summary_block("teddy", "admin", "a<b");
    assert_eq!(admin, "<span class=\"dim\">$</span> predlab member · teddy · admin\n\na&lt;b");
}

#[test]
fn rank_label_shows_place_or_dash() {
    assert_eq!(rank_label(Some(1)), "#1");
    assert_eq!(rank_label(Some(12)), "#12");
    assert_eq!(rank_label(None), "—");
}

#[test]
fn profile_page_has_summary_chart_positions_trades_and_back_link() {
    let kv = format!("  {:<10}{}\n  {:<10}{}", "rank", rank_label(Some(1)), "net worth", format_cents(2_944_444));
    let summary = summary_block("teddy", "member", &kv);
    let positions_table = build_table(
        &["MARKET", "QUESTION", "SIZE", "ENTRY", "MARK", "UNREALIZED"],
        &[Align::Left, Align::Left, Align::Right, Align::Right, Align::Right, Align::Right],
        &[vec![
            "m1".to_string(),
            "Will it rain?".to_string(),
            "10.0000".to_string(),
            "0.5000".to_string(),
            "0.9444".to_string(),
            format_cents(444_444),
        ]],
    );
    let positions = listing_block("positions", Some(&positions_table), "no open positions");
    let trades_table = build_table(
        &["TIME", "MARKET", "SIDE", "SIZE", "PRICE"],
        &[Align::Left, Align::Left, Align::Left, Align::Right, Align::Right],
        &[vec![
            "05-22 16:39".to_string(),
            "m1".to_string(),
            "BUY".to_string(),
            "10.0000".to_string(),
            "0.5000".to_string(),
        ]],
    );
    let trades = listing_block("recent trades", Some(&trades_table), "no trades yet");
    let chart = "<svg class=\"chart\"><polyline points=\"0,0 1,1\"/></svg>";
    let html = profile_page("teddy", &summary, chart, &positions, &trades);
    assert!(html.contains("predlab member · teddy"));
    assert!(html.contains("#1"));
    assert!(html.contains("$29,444.44"));
    assert!(html.contains("<svg") && html.contains("</svg>"));
    assert!(html.contains("POSITIONS") || html.contains("# positions"));
    assert!(html.contains("UNREALIZED"));
    assert!(html.contains("$4,444.44"));
    assert!(html.contains("# recent trades"));
    assert!(html.contains("BUY"));
    assert!(html.contains(r#"href="/""#));
    assert!(!html.contains("http-equiv=\"refresh\""));
}

#[test]
fn profile_handles_empty_positions_and_trades() {
    let summary = summary_block("teddy", "member", "");
    let positions = listing_block("positions", None, "no open positions");
    let trades = listing_block("recent trades", None, "no trades yet");
    let chart = "<div class=\"chart-empty dim\">collecting net-worth points</div>";
    let html = profile_page("teddy", &summary, chart, &positions, &trades);
    assert!(html.contains("no open positions"));
    assert!(html.contains("no trades yet"));
    assert!(html.contains("collecting net-worth points"));
}
