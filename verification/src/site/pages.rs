//! Whole pages of the leaderboard site: the shared document chrome, the
//! leaderboard shell, the static pages and the error pages.

use vstd::prelude::*;
use crate::text::{dec, esc, esc_text, push_dec, push_escaped, push_str, to_chars};

verus! {

/// Browser auto-refresh interval (seconds) baked into the leaderboard page.
pub const REFRESH_SECS: u32 = 30;

/// The shared terminal-look stylesheet.
pub const STYLE: &'static str = "\n:root { color-scheme: dark; }\nhtml, body { margin: 0; min-height: 100%; background: #000; }\nbody {\n  display: flex; align-items: flex-start; justify-content: center;\n  padding: 48px 16px;\n  font-family: \"DejaVu Sans Mono\", \"SFMono-Regular\", ui-monospace, Menlo, Consolas, monospace;\n  color: #f0f0f0;\n}\nmain { display: flex; flex-direction: column; align-items: stretch; gap: 30px; width: 100%; max-width: 680px; }\npre.board {\n  margin: 0;\n  font-size: 14px;\n  /* line-height: 1 so the box-drawing chars touch and form continuous lines */\n  line-height: 1;\n  white-space: pre;\n  overflow-x: auto;\n}\n.dim { color: #666; }\na { color: #8ab4ff; }\n.nav { margin: 0; font-size: 14px; }\n.onboard { font-size: 14px; line-height: 1.55; }\n.onboard h2 { font-size: 14px; font-weight: normal; margin: 0 0 12px; }\n.onboard ol { margin: 0; padding-left: 1.5em; }\n.onboard li { margin: 7px 0; }\n.onboard code { color: #d7d7d7; }\n.btn {\n  display: inline-block; margin-left: 6px;\n  border: 1px solid #f0f0f0; color: #f0f0f0; text-decoration: none;\n  padding: 4px 12px; border-radius: 3px; font-weight: bold;\n}\n.btn:hover { background: #f0f0f0; color: #000; }\npre.snippet {\n  margin: 10px 0 0; font-size: 13px; line-height: 1.45; white-space: pre;\n  background: #0c0c0c; border: 1px solid #222; border-radius: 4px;\n  padding: 12px 14px; overflow-x: auto; color: #d7d7d7;\n}\nsvg.chart {\n  display: block; width: 100%; max-width: 100%; height: auto;\n  background: #050505; border: 1px solid #1a1a1a; border-radius: 3px;\n  margin: 4px 0 14px;\n}\n.chart-empty {\n  font-size: 13px; padding: 28px 14px; text-align: center;\n  background: #050505; border: 1px solid #1a1a1a; border-radius: 3px;\n  margin: 4px 0 14px;\n}\nform.search { display: flex; gap: 8px; margin: 0; }\nform.search input {\n  flex: 1; background: #0c0c0c; border: 1px solid #333; border-radius: 3px;\n  color: #f0f0f0; font: inherit; font-size: 14px; padding: 6px 10px;\n}\nform.search input::placeholder { color: #666; }\nform.search button {\n  background: transparent; border: 1px solid #f0f0f0; border-radius: 3px;\n  color: #f0f0f0; font: inherit; font-size: 14px; padding: 6px 14px; cursor: pointer;\n}\nform.search button:hover { background: #f0f0f0; color: #000; }\n@media (max-width: 640px) { pre.board { font-size: 11px; } }\n";

/// The get-started page body: how a student goes from zero to trading.
pub const ONBOARD: &'static str = "<section class=\"onboard\">\n<h2><span class=\"dim\">$</span> get started — trade in 4 steps</h2>\n<ol>\n<li>Ask a club admin for your <strong>API key</strong> (it looks like <code>pm_paper_…</code>). You start with $25,000 of paper money.</li>\n<li>Download the one-file client:<a class=\"btn\" href=\"/predlab.py\" download=\"predlab.py\">⬇ predlab.py</a></li>\n<li>Install its only dependency: <code>pip install requests</code></li>\n<li>Drop in your key and trade:</li>\n</ol>\n<pre class=\"snippet\">from predlab import PolymarketClient\n\npoly = PolymarketClient(api_key=\"pm_paper_…\")    # your key\nprint(poly.markets(limit=5))                     # browse markets\nyes_token = poly.markets(limit=1)[0][\"clobTokenIds\"][0]\npoly.place_order(token_id=yes_token, side=\"BUY\", price=0.55, size=10)\nprint(poly.positions())                          # what you now hold</pre>\n<p class=\"dim\">paper trading only · full step-by-step guide → <a href=\"https://github.com/teddytennant/predlab#getting-started-members\">github.com/teddytennant/predlab</a></p>\n<p class=\"dim\">prefer a terminal? <a href=\"/tui\">→ install the TUI client (predlab-tui)</a></p>\n</section>\n<p class=\"nav\"><a href=\"/\">← back to leaderboard</a></p>";

/// The install page body for the terminal client.
pub const TUI_ONBOARD: &'static str = "<section class=\"onboard\">\n<h2><span class=\"dim\">$</span> predlab-tui — paper trading in your shell</h2>\n<p>A vim-flavored TUI clone of this site: leaderboard, markets, and your portfolio in one window. Same data, no browser.</p>\n\n<h2 style=\"margin-top:18px\"><span class=\"dim\">$</span> install (one line)</h2>\n<pre class=\"snippet\">cargo install --git https://github.com/teddytennant/predlab predlab-tui</pre>\n<p class=\"dim\">requires Rust (<a href=\"https://rustup.rs\">rustup.rs</a>). drops the <code>predlab-tui</code> binary onto your PATH.</p>\n\n<h2 style=\"margin-top:18px\"><span class=\"dim\">$</span> run it</h2>\n<pre class=\"snippet\">export POLY_API_KEY=pm_paper_…   # your key (admin issues it)\npredlab-tui</pre>\n<p class=\"dim\">no key? the Leaderboard and Markets tabs still work. ask an admin for one to unlock Portfolio.</p>\n\n<h2 style=\"margin-top:18px\"><span class=\"dim\">$</span> keys (vim)</h2>\n<pre class=\"snippet\">h l   1 2 3 4   switch tab\nj k   gg / G    move selection / jump\nr R             refresh tab / refresh all\n/needle         filter the current list\n:cmd            ex command — try :help, :q\n?               full help screen\nq   Ctrl-c      quit</pre>\n\n<p class=\"dim\">screens:</p>\n<pre class=\"snippet\"><span class=\"dim\">┌─ PREDLAB v0.1.0  ·  paper trading ────────────  ● connected ─┐</span>\n<span class=\"dim\"> </span> 1 <strong>LEADERBOARD</strong>   2 MARKETS    3 PORTFOLIO   4 HELP\n<span class=\"dim\">┌─ LEADERBOARD ────────────────────── 42 members · 12s ago ─┐</span>\n<span class=\"dim\">│</span>  #   MEMBER                        NET WORTH\n<span class=\"dim\">│</span>  ▶ 1 teddy                         $29,444.44 ★\n<span class=\"dim\">│</span>    2 alice                         $26,300.00\n<span class=\"dim\">│</span>    3 bob                           $25,420.10\n<span class=\"dim\">└────────────────────────────────────────────────────────────┘</span>\n<span class=\"dim\"> NORMAL </span> /ali                                ? help  : cmd  q quit</pre>\n\n<p class=\"dim\">runs anywhere with Rust + a 256-color terminal · paper money only</p>\n</section>\n<p class=\"nav\"><a href=\"/\">← back to leaderboard</a>  ·  <a href=\"/start\">→ python client</a></p>";

/// The rules / about page body: what the game is and how the score works.
pub const ABOUT: &'static str = "<section class=\"onboard\">\n<h2><span class=\"dim\">$</span> what is predlab?</h2>\n<p>PredLab is the paper-trading playground for the <strong>NCSSM Prediction Markets Club</strong>. You trade Polymarket-style yes/no markets with <strong>$25,000 of fake money</strong>, practice real strategies, and climb a live club leaderboard.</p>\n<p class=\"dim\">Paper trading only · not affiliated with Polymarket · educational use · the money is fake, the prices are real.</p>\n\n<h2 style=\"margin-top:18px\"><span class=\"dim\">$</span> how the markets work</h2>\n<p>A market asks a yes/no question (“Will X happen?”). You buy <strong>YES</strong> or <strong>NO</strong> shares priced $0.01–$0.99 — the price <em>is</em> the market's implied probability. A winning share pays <strong>$1.00</strong> at resolution; a losing share pays <strong>$0</strong>. Prices are pulled live from the real Polymarket Gamma API, but there is <strong>no house market-maker</strong>: your order fills only when another member takes the other side.</p>\n\n<h2 style=\"margin-top:18px\"><span class=\"dim\">$</span> how your score is computed</h2>\n<pre class=\"snippet\">net worth = free cash\n          + open positions marked at the current price\n          + cash escrowed in your resting buy orders</pre>\n<p>That net-worth figure is your leaderboard score, and the <strong>P&amp;L</strong> column shows it against the $25,000 you started with. Your line on your profile page updates on every fill and every few minutes.</p>\n\n<h2 style=\"margin-top:18px\"><span class=\"dim\">$</span> fair play &amp; AI</h2>\n<p>AI use is <strong>unrestricted and encouraged</strong> — bring your own model, framework, or none at all. It's fake money and a learning sandbox: experiment freely, but don't try to break the sim for everyone else.</p>\n</section>\n<p class=\"nav\"><a href=\"/\">← back to leaderboard</a> · <a href=\"/markets\">→ browse markets</a> · <a href=\"/start\">→ get a key</a></p>";

/// `<meta http-equiv="refresh">` for `refresh`, or nothing.
pub open spec fn refresh_tag(refresh: Option<u32>) -> Seq<char> {
    match refresh {
        Some(s) => "<meta http-equiv=\"refresh\" content=\""@ + dec(s as nat) + "\">"@,
        None => seq![],
    }
}

/// A full HTML document with the shared terminal styling.
pub open spec fn document_text(title: Seq<char>, refresh: Option<u32>, body: Seq<char>) -> Seq<char> {
    "<!doctype html>\n<html lang=\"en\">\n<head>\n<meta charset=\"utf-8\">\n<meta name=\"viewport\" content=\"width=device-width, initial-scale=1\">\n"@
        + refresh_tag(refresh) + "\n<title>"@ + esc_text(title) + "</title>\n<style>"@ + STYLE@
        + "</style>\n</head>\n<body><main>"@ + body + "</main></body>\n</html>"@
}

/// Full HTML document with the shared terminal styling. `refresh` adds a
/// meta-refresh (the auto-updating leaderboard uses it; the static pages
/// omit it).
pub fn document(title: &str, refresh: Option<u32>, body: &str) -> (d: String)
    ensures
        d@ == document_text(title@, refresh, body@),
{
    let mut d = String::new();
    push_str(&mut d, "<!doctype html>\n<html lang=\"en\">\n<head>\n<meta charset=\"utf-8\">\n<meta name=\"viewport\" content=\"width=device-width, initial-scale=1\">\n");
    match refresh {
        Some(s) => {
            push_str(&mut d, "<meta http-equiv=\"refresh\" content=\"");
            push_dec(&mut d, s as u128);
            push_str(&mut d, "\">");
        },
        None => {},
    }
    push_str(&mut d, "\n<title>");
    let tc = to_chars(title);
    push_escaped(&mut d, tc.as_slice());
    push_str(&mut d, "</title>\n<style>");
    push_str(&mut d, STYLE);
    push_str(&mut d, "</style>\n</head>\n<body><main>");
    push_str(&mut d, body);
    push_str(&mut d, "</main></body>\n</html>");
    proof {
        assert(d@ =~= document_text(title@, refresh, body@));
    }
    d
}

/// The leaderboard page around pre-built board HTML.
pub open spec fn page_shell_text(board_inner: Seq<char>) -> Seq<char> {
    let board = "<span class=\"dim\">$</span> predlab leaderboard\n\n"@ + board_inner
        + "\n\n<span class=\"dim\"># click a member to see their graph · refreshes every "@ + dec(
        REFRESH_SECS as nat,
    ) + "s · paper trading only</span>"@;
    let body = "<pre class=\"board\">"@ + board
        + "</pre>\n<p class=\"nav\"><a href=\"/markets\">→ browse markets</a> · <a href=\"/about\">→ rules</a> · <a href=\"/start\">→ get your key</a> · <a href=\"/tui\">→ terminal client</a></p>"@;
    document_text("predlab · leaderboard"@, Some(REFRESH_SECS), body)
}

/// Wrap pre-escaped (or pre-built) HTML in the leaderboard page chrome with a
/// link out to the get-started page. The caller is responsible for escaping
/// any user-supplied text inside `board_inner`.
pub fn page_shell(board_inner: &str) -> (p: String)
    ensures
        p@ == page_shell_text(board_inner@),
{
    let mut body = String::new();
    push_str(&mut body, "<pre class=\"board\">");
    push_str(&mut body, "<span class=\"dim\">$</span> predlab leaderboard\n\n");
    push_str(&mut body, board_inner);
    push_str(&mut body, "\n\n<span class=\"dim\"># click a member to see their graph · refreshes every ");
    push_dec(&mut body, REFRESH_SECS as u128);
    push_str(&mut body, "s · paper trading only</span>");
    push_str(&mut body, "</pre>\n<p class=\"nav\"><a href=\"/markets\">→ browse markets</a> · <a href=\"/about\">→ rules</a> · <a href=\"/start\">→ get your key</a> · <a href=\"/tui\">→ terminal client</a></p>");
    proof {
        let board = "<span class=\"dim\">$</span> predlab leaderboard\n\n"@ + board_inner@
            + "\n\n<span class=\"dim\"># click a member to see their graph · refreshes every "@ + dec(
            REFRESH_SECS as nat,
        ) + "s · paper trading only</span>"@;
        assert(body@ =~= "<pre class=\"board\">"@ + board
            + "</pre>\n<p class=\"nav\"><a href=\"/markets\">→ browse markets</a> · <a href=\"/about\">→ rules</a> · <a href=\"/start\">→ get your key</a> · <a href=\"/tui\">→ terminal client</a></p>"@);
    }
    document("predlab · leaderboard", Some(REFRESH_SECS), body.as_str())
}

/// The standalone onboarding / download page.
pub fn render_start_page() -> (p: String)
    ensures
        p@ == document_text("predlab · get started"@, None, ONBOARD@),
{
    document("predlab · get started", None, ONBOARD)
}

/// Standalone install page for the terminal client.
pub fn render_tui_page() -> (p: String)
    ensures
        p@ == document_text("predlab · TUI client"@, None, TUI_ONBOARD@),
{
    document("predlab · TUI client", None, TUI_ONBOARD)
}

/// Static rules / about page: what the game is and exactly how the score works.
pub fn render_about_page() -> (p: String)
    ensures
        p@ == document_text("predlab · rules"@, None, ABOUT@),
{
    document("predlab · rules", None, ABOUT)
}

/// The leaderboard page showing a standings error in place of the board.
pub fn render_error(msg: &str) -> (p: String)
    ensures
        p@ == page_shell_text(esc_text("  standings temporarily unavailable\n  "@ + msg@)),
{
    let mut m = String::new();
    push_str(&mut m, "  standings temporarily unavailable\n  ");
    push_str(&mut m, msg);
    let e = esc(m.as_str());
    page_shell(e.as_str())
}

/// The profile page shown when a member's profile cannot be loaded.
pub open spec fn profile_error_text(username: Seq<char>, msg: Seq<char>) -> Seq<char> {
    let title = "<span class=\"dim\">$</span> predlab member · "@ + esc_text(username);
    let body_pre = title + "\n\n  "@ + esc_text("profile unavailable"@) + "\n  <span class=\"dim\">"@
        + esc_text(msg) + "</span>"@;
    let body = "<pre class=\"board\">"@ + body_pre
        + "</pre>\n<p class=\"nav\"><a href=\"/\">← back to leaderboard</a></p>"@;
    document_text("predlab · "@ + username, None, body)
}

/// The profile page shown when a member's profile cannot be loaded.
pub fn render_profile_error(username: &str, msg: &str) -> (p: String)
    ensures
        p@ == profile_error_text(username@, msg@),
{
    let mut body = String::new();
    push_str(&mut body, "<pre class=\"board\">");
    push_str(&mut body, "<span class=\"dim\">$</span> predlab member · ");
    let uc = to_chars(username);
    push_escaped(&mut body, uc.as_slice());
    push_str(&mut body, "\n\n  ");
    let pu = to_chars("profile unavailable");
    push_escaped(&mut body, pu.as_slice());
    push_str(&mut body, "\n  <span class=\"dim\">");
    let mc = to_chars(msg);
    push_escaped(&mut body, mc.as_slice());
    push_str(&mut body, "</span>");
    push_str(&mut body, "</pre>\n<p class=\"nav\"><a href=\"/\">← back to leaderboard</a></p>");
    let mut title = String::new();
    push_str(&mut title, "predlab · ");
    push_str(&mut title, username);
    proof {
        let t = "<span class=\"dim\">$</span> predlab member · "@ + esc_text(username@);
        let body_pre = t + "\n\n  "@ + esc_text("profile unavailable"@) + "\n  <span class=\"dim\">"@
            + esc_text(msg@) + "</span>"@;
        assert(body@ =~= "<pre class=\"board\">"@ + body_pre
            + "</pre>\n<p class=\"nav\"><a href=\"/\">← back to leaderboard</a></p>"@);
    }
    document(title.as_str(), None, body.as_str())
}

/// The first 16 chars of a timestamp with `T` shown as a space.
pub open spec fn time_short_text(s: Seq<char>) -> Seq<char> {
    let head = if s.len() <= 16 { s } else { s.take(16) };
    Seq::new(head.len(), |i: int| if head[i] == 'T' { ' ' } else { head[i] })
}

/// Trim an ISO datetime down to `YYYY-MM-DD HH:MM` for the trades table.
pub fn fmt_time_short(s: &str) -> (r: String)
    ensures
        r@ == time_short_text(s@),
{
    let cs = to_chars(s);
    let n: usize = if cs.len() <= 16 { cs.len() } else { 16 };
    let mut r = String::new();
    let mut i: usize = 0;
    while i < n
        invariant
            n <= cs@.len(),
            n == (if cs@.len() <= 16 { cs@.len() } else { 16 }),
            i <= n,
            r@ =~= time_short_text(s@).take(i as int),
            cs@ == s@,
        decreases n - i,
    {
        let c = cs[i];
        crate::text::push_char(&mut r, if c == 'T' { ' ' } else { c });
        i = i + 1;
    }
    r
}

/// The first 10 chars of a timestamp (its date).
pub open spec fn date_text(s: Seq<char>) -> Seq<char> {
    if s.len() <= 10 { s } else { s.take(10) }
}

/// Trim an ISO timestamp to just the date for the chart's x-axis labels.
pub fn fmt_date(s: &str) -> (r: String)
    ensures
        r@ == date_text(s@),
{
    let cs = to_chars(s);
    let n: usize = if cs.len() <= 10 { cs.len() } else { 10 };
    crate::text::from_chars(crate::text::slice_take(cs.as_slice(), n))
}

} // verus!
