//! The markets browser and the member profile page: their chrome, search
//! box, paging and section layout around the tables the caller renders.

use vstd::prelude::*;
use vstd::string::StringSliceAdditionalSpecFns;
use vstd::utf8::encode_utf8;
use crate::text::{dec, esc, esc_text, push_dec, push_str, url_encode, url_path_encode};
use crate::site::pages::{document, document_text};

verus! {

/// Markets per page of the browser.
pub const MARKETS_PAGE: u32 = 50;

/// The placeholder shown when no market matches.
pub open spec fn no_markets_text() -> Seq<char> {
    esc_text("  (no markets match — try a different search)"@)
}

/// The prev/next links: back a page when not on the first one, on when
/// the page is full.
pub open spec fn markets_pager(q: Seq<char>, offset: u32, shown: nat) -> Seq<char> {
    let qenc = url_encode(encode_utf8(q));
    (if offset >= 50 {
        "<a href=\"/markets?q="@ + qenc + "&offset="@ + dec((offset - 50) as nat) + "\">"@
            + "← prev</a>  "@
    } else {
        seq![]
    }) + (if shown == 50 {
        "<a href=\"/markets?q="@ + qenc + "&offset="@ + dec((offset + 50) as nat) + "\">"@
            + "next →</a>"@
    } else {
        seq![]
    })
}

/// The markets browser page: the table (or the no-match placeholder), a
/// no-JS search box echoing `q`, and the paging links.
pub open spec fn markets_page_text(table: Option<Seq<char>>, q: Seq<char>, offset: u32, shown: nat) -> Seq<char> {
    let t = match table {
        Some(t) => t,
        None => no_markets_text(),
    };
    let search = "<form class=\"search\" method=\"get\" action=\"/markets\"><input type=\"text\" name=\"q\" value=\""@
        + esc_text(q)
        + "\" placeholder=\"search markets…\" autocomplete=\"off\"><button type=\"submit\">search</button></form>"@;
    let board = "<span class=\"dim\">$</span> predlab markets\n\n"@ + t
        + "\n\n<span class=\"dim\"># live Polymarket prices · YES = implied probability · paper trading only</span>"@;
    let body = search + "\n<pre class=\"board\">"@ + board + "</pre>\n<p class=\"nav\">"@
        + markets_pager(q, offset, shown)
        + "</p>\n<p class=\"nav\"><a href=\"/\">← back to leaderboard</a> · <a href=\"/start\">→ get a key &amp; trade</a></p>"@;
    document_text("predlab · markets"@, None, body)
}

fn push_page_link(out: &mut String, qenc: &str, offset: u128)
    ensures
        final(out)@ == old(out)@ + "<a href=\"/markets?q="@ + qenc@ + "&offset="@ + dec(
            offset as nat,
        ) + "\">"@,
{
    push_str(out, "<a href=\"/markets?q=");
    push_str(out, qenc);
    push_str(out, "&offset=");
    push_dec(out, offset);
    push_str(out, "\">");
}

/// The markets browser page around a rendered table (`None` when no
/// market matched); `shown` is how many markets the page lists.
pub fn markets_page(table: Option<&str>, q: &str, offset: u32, shown: usize) -> (p: String)
    ensures
        p@ == markets_page_text(
            match table {
                Some(t) => Some(t@),
                None => None,
            },
            q@,
            offset,
            shown as nat,
        ),
{
    let qenc = url_path_encode(q);
    let mut pager = String::new();
    if offset >= 50 {
        push_page_link(&mut pager, qenc.as_str(), (offset - 50) as u128);
        push_str(&mut pager, "← prev</a>  ");
    }
    let ghost first = pager@;
    if shown == 50 {
        push_page_link(&mut pager, qenc.as_str(), offset as u128 + 50);
        push_str(&mut pager, "next →</a>");
    }
    proof {
        assert(q.spec_bytes() == encode_utf8(q@));
        assert(pager@ =~= markets_pager(q@, offset, shown as nat));
    }
    let placeholder = esc("  (no markets match — try a different search)");
    let mut body = String::new();
    push_str(
        &mut body,
        "<form class=\"search\" method=\"get\" action=\"/markets\"><input type=\"text\" name=\"q\" value=\"",
    );
    push_str(&mut body, esc(q).as_str());
    push_str(
        &mut body,
        "\" placeholder=\"search markets…\" autocomplete=\"off\"><button type=\"submit\">search</button></form>",
    );
    push_str(&mut body, "\n<pre class=\"board\">");
    push_str(&mut body, "<span class=\"dim\">$</span> predlab markets\n\n");
    match table {
        Some(t) => push_str(&mut body, t),
        None => push_str(&mut body, placeholder.as_str()),
    }
    push_str(
        &mut body,
        "\n\n<span class=\"dim\"># live Polymarket prices · YES = implied probability · paper trading only</span>",
    );
    push_str(&mut body, "</pre>\n<p class=\"nav\">");
    push_str(&mut body, pager.as_str());
    push_str(
        &mut body,
        "</p>\n<p class=\"nav\"><a href=\"/\">← back to leaderboard</a> · <a href=\"/start\">→ get a key &amp; trade</a></p>",
    );
    proof {
        let t = match table {
            Some(t) => t@,
            None => no_markets_text(),
        };
        let search = "<form class=\"search\" method=\"get\" action=\"/markets\"><input type=\"text\" name=\"q\" value=\""@
            + esc_text(q@)
            + "\" placeholder=\"search markets…\" autocomplete=\"off\"><button type=\"submit\">search</button></form>"@;
        let board = "<span class=\"dim\">$</span> predlab markets\n\n"@ + t
            + "\n\n<span class=\"dim\"># live Polymarket prices · YES = implied probability · paper trading only</span>"@;
        assert(body@ =~= search + "\n<pre class=\"board\">"@ + board + "</pre>\n<p class=\"nav\">"@
            + markets_pager(q@, offset, shown as nat)
            + "</p>\n<p class=\"nav\"><a href=\"/\">← back to leaderboard</a> · <a href=\"/start\">→ get a key &amp; trade</a></p>"@);
    }
    document("predlab · markets", None, body.as_str())
}

/// The markets page shown when the catalog cannot be fetched.
pub open spec fn markets_error_text(msg: Seq<char>) -> Seq<char> {
    document_text(
        "predlab · markets"@,
        None,
        "<pre class=\"board\">"@ + esc_text("  markets temporarily unavailable\n  "@ + msg)
            + "</pre>\n<p class=\"nav\"><a href=\"/\">← back to leaderboard</a></p>"@,
    )
}

/// The markets page shown when the catalog cannot be fetched.
pub fn render_markets_error(msg: &str) -> (p: String)
    ensures
        p@ == markets_error_text(msg@),
{
    let mut m = String::new();
    push_str(&mut m, "  markets temporarily unavailable\n  ");
    push_str(&mut m, msg);
    let mut body = String::new();
    push_str(&mut body, "<pre class=\"board\">");
    push_str(&mut body, esc(m.as_str()).as_str());
    push_str(&mut body, "</pre>\n<p class=\"nav\"><a href=\"/\">← back to leaderboard</a></p>");
    document("predlab · markets", None, body.as_str())
}

/// A titled section of the profile page: its table, or a note in
/// parentheses when it has no rows.
pub open spec fn listing_text(title: Seq<char>, table: Option<Seq<char>>, empty_note: Seq<char>) -> Seq<char> {
    "<span class=\"dim\"># "@ + title + "</span>\n\n"@ + match table {
        Some(t) => t,
        None => "  <span class=\"dim\">("@ + empty_note + ")</span>"@,
    }
}

/// A titled section of the profile page (positions, recent trades).
pub fn listing_block(title: &str, table: Option<&str>, empty_note: &str) -> (s: String)
    ensures
        s@ == listing_text(
            title@,
            match table {
                Some(t) => Some(t@),
                None => None,
            },
            empty_note@,
        ),
{
    let mut s = String::new();
    push_str(&mut s, "<span class=\"dim\"># ");
    push_str(&mut s, title);
    push_str(&mut s, "</span>\n\n");
    match table {
        Some(t) => push_str(&mut s, t),
        None => {
            push_str(&mut s, "  <span class=\"dim\">(");
            push_str(&mut s, empty_note);
            push_str(&mut s, ")</span>");
        },
    }
    s
}

/// The profile summary's heading: the member, and their role unless it
/// is the default one.
pub open spec fn summary_header_text(username: Seq<char>, role: Seq<char>) -> Seq<char> {
    let suffix = if role.len() == 0 || role == "member"@ { seq![] } else { " · "@ + role };
    "<span class=\"dim\">$</span> predlab member · "@ + esc_text(username) + esc_text(suffix)
}

/// The profile summary block: its heading, then the key/value lines
/// (escaped).
pub fn summary_block(username: &str, role: &str, kv: &str) -> (s: String)
    ensures
        s@ == summary_header_text(username@, role@) + "\n\n"@ + esc_text(kv@),
{
    let mut suffix = String::new();
    if !role.is_empty() && !crate::text::text_is(crate::text::to_chars(role).as_slice(), "member") {
        push_str(&mut suffix, " · ");
        push_str(&mut suffix, role);
    }
    let mut s = String::new();
    push_str(&mut s, "<span class=\"dim\">$</span> predlab member · ");
    push_str(&mut s, esc(username).as_str());
    push_str(&mut s, esc(suffix.as_str()).as_str());
    push_str(&mut s, "\n\n");
    push_str(&mut s, esc(kv).as_str());
    proof {
        let sfx: Seq<char> = if role@.len() == 0 || role@ == "member"@ { seq![] } else { " · "@ + role@ };
        assert(suffix@ =~= sfx);
    }
    s
}

/// A rank as shown on the profile: `#N`, or a dash when unranked.
pub fn rank_label(rank: Option<usize>) -> (s: String)
    ensures
        s@ == match rank {
            Some(r) => "#"@ + dec(r as nat),
            None => "—"@,
        },
{
    match rank {
        Some(r) => {
            let mut s = String::from_str("#");
            push_dec(&mut s, r as u128);
            s
        },
        None => String::from_str("—"),
    }
}

/// The member profile page around its rendered sections.
pub open spec fn profile_page_text(
    username: Seq<char>,
    summary: Seq<char>,
    chart: Seq<char>,
    positions: Seq<char>,
    trades: Seq<char>,
) -> Seq<char> {
    document_text(
        "predlab · "@ + username,
        None,
        "<pre class=\"board\">"@ + summary + "</pre>\n"@ + chart + "\n<pre class=\"board\">"@
            + positions + "</pre>\n<pre class=\"board\">"@ + trades
            + "</pre>\n<p class=\"nav\"><a href=\"/\">← back to leaderboard</a></p>"@,
    )
}

/// The member profile page: summary, chart, positions and trades, and a
/// way back to the board. It does not auto-refresh.
pub fn profile_page(username: &str, summary: &str, chart: &str, positions: &str, trades: &str) -> (p: String)
    ensures
        p@ == profile_page_text(username@, summary@, chart@, positions@, trades@),
{
    let mut body = String::new();
    push_str(&mut body, "<pre class=\"board\">");
    push_str(&mut body, summary);
    push_str(&mut body, "</pre>\n");
    push_str(&mut body, chart);
    push_str(&mut body, "\n<pre class=\"board\">");
    push_str(&mut body, positions);
    push_str(&mut body, "</pre>\n<pre class=\"board\">");
    push_str(&mut body, trades);
    push_str(&mut body, "</pre>\n<p class=\"nav\"><a href=\"/\">← back to leaderboard</a></p>");
    let mut title = String::new();
    push_str(&mut title, "predlab · ");
    push_str(&mut title, username);
    proof {
        assert(body@ =~= "<pre class=\"board\">"@ + summary@ + "</pre>\n"@ + chart@
            + "\n<pre class=\"board\">"@ + positions@ + "</pre>\n<pre class=\"board\">"@ + trades@
            + "</pre>\n<p class=\"nav\"><a href=\"/\">← back to leaderboard</a></p>"@);
    }
    document(title.as_str(), None, body.as_str())
}

} // verus!
