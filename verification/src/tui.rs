//! Terminal client state and its vim-style key handling.
//!
//! Modes: NORMAL (navigate, switch tabs), COMMAND (`:cmd`), SEARCH
//! (`/needle`). Tab content is loaded in the background and lives in a
//! [`LoadState`], so the screen can show spinners while requests are in
//! flight. Amounts are whole cents.

use std::collections::VecDeque;
use std::time::{Duration, Instant};
use crate::clock::{duration_secs, elapsed, now, whole_secs};
use vstd::prelude::*;
use crate::text::{slice_skip, slice_take, text_is, dec, has_infix, infix_at, lowercase, parsed_usize, parse_usize, pop_char,
    push_char, push_chars, push_dec, push_str, to_chars, to_lower, contains_chars, trim_chars,
    trim_text};

verus! {

/// Top-level tabs the user cycles through with 1-4 / h / l.
#[derive(Debug, Clone, Copy, PartialEq, Eq, Structural)]
pub enum Tab {
    Leaderboard,
    Markets,
    Portfolio,
    Help,
}

/// Position of a tab in the tab bar.
pub open spec fn tab_number(t: Tab) -> nat {
    match t {
        Tab::Leaderboard => 0,
        Tab::Markets => 1,
        Tab::Portfolio => 2,
        Tab::Help => 3,
    }
}

/// The tab at position `i`; positions past the end give the last tab.
pub open spec fn tab_at(i: int) -> Tab {
    if i <= 0 {
        Tab::Leaderboard
    } else if i == 1 {
        Tab::Markets
    } else if i == 2 {
        Tab::Portfolio
    } else {
        Tab::Help
    }
}

/// Title of a tab in the tab bar.
pub open spec fn tab_title(t: Tab) -> Seq<char> {
    match t {
        Tab::Leaderboard => "LEADERBOARD"@,
        Tab::Markets => "MARKETS"@,
        Tab::Portfolio => "PORTFOLIO"@,
        Tab::Help => "HELP"@,
    }
}

impl Tab {
    /// Every tab, in tab-bar order.
    pub const ALL: [Tab; 4] = [Tab::Leaderboard, Tab::Markets, Tab::Portfolio, Tab::Help];

    pub fn index(self) -> (i: usize)
        ensures
            i == tab_number(self),
    {
        match self {
            Tab::Leaderboard => 0,
            Tab::Markets => 1,
            Tab::Portfolio => 2,
            Tab::Help => 3,
        }
    }

    /// The tab at position `i`, clamped to the last tab.
    pub fn from_index(i: usize) -> (t: Tab)
        ensures
            t == tab_at(i as int),
    {
        if i == 0 {
            Tab::Leaderboard
        } else if i == 1 {
            Tab::Markets
        } else if i == 2 {
            Tab::Portfolio
        } else {
            Tab::Help
        }
    }

    pub fn title(self) -> (s: &'static str)
        ensures
            s@ == tab_title(self),
    {
        match self {
            Tab::Leaderboard => "LEADERBOARD",
            Tab::Markets => "MARKETS",
            Tab::Portfolio => "PORTFOLIO",
            Tab::Help => "HELP",
        }
    }
}

/// The tab after `t`, wrapping from the last to the first.
pub open spec fn next_tab_of(t: Tab) -> Tab {
    tab_at(((tab_number(t) + 1) % 4) as int)
}

/// The tab before `t`, wrapping from the first to the last.
pub open spec fn prev_tab_of(t: Tab) -> Tab {
    tab_at(((tab_number(t) + 3) % 4) as int)
}

pub fn next_tab(t: Tab) -> (r: Tab)
    ensures
        r == next_tab_of(t),
{
    Tab::from_index((t.index() + 1) % 4)
}

pub fn prev_tab(t: Tab) -> (r: Tab)
    ensures
        r == prev_tab_of(t),
{
    Tab::from_index((t.index() + 4 - 1) % 4)
}

/// A tab's position maps back to the tab.
pub proof fn lemma_tab_index_round_trip(t: Tab)
    ensures
        tab_at(tab_number(t) as int) == t,
{
}

/// Moving to the next tab and back, or back and then on, returns to the
/// same tab; four steps in one direction go all the way round.
pub proof fn lemma_tab_cycle(t: Tab)
    ensures
        prev_tab_of(next_tab_of(t)) == t,
        next_tab_of(prev_tab_of(t)) == t,
        next_tab_of(next_tab_of(next_tab_of(next_tab_of(t)))) == t,
{
}

/// Editing mode for the bottom status line.
#[derive(Debug, Clone, Copy, PartialEq, Eq, Structural)]
pub enum Mode {
    Normal,
    Command,
    Search,
}

/// Lifecycle of a fetched dataset.
#[derive(Debug, Default)]
pub enum LoadState<T> {
    #[default]
    Idle,
    Loading,
    Loaded { data: T, at: Instant },
    Error(String),
}

impl<T> LoadState<T> {
    /// The data, once loaded.
    pub fn data(&self) -> (r: Option<&T>)
        ensures
            (r is Some) == (self is Loaded),
            self is Loaded ==> *r.unwrap() == self->data,
    {
        match self {
            LoadState::Loaded { data, .. } => Some(data),
            _ => None,
        }
    }

    pub fn is_loading(&self) -> (r: bool)
        ensures
            r == (self is Loading),
    {
        match self {
            LoadState::Loading => true,
            _ => false,
        }
    }

    /// When the data arrived, once loaded.
    pub fn loaded_at(&self) -> (r: Option<Instant>)
        ensures
            (r is Some) == (self is Loaded),
            self is Loaded ==> r.unwrap() == self->at,
    {
        match self {
            LoadState::Loaded { at, .. } => Some(*at),
            _ => None,
        }
    }
}

/// Compact age text: seconds under a minute, minutes under an hour, hours
/// otherwise (`"12s ago"`, `"3m ago"`, `"2h ago"`).
pub open spec fn age_text(s: nat) -> Seq<char> {
    if s < 60 {
        dec(s) + "s ago"@
    } else if s < 3600 {
        dec(s / 60) + "m ago"@
    } else {
        dec(s / 3600) + "h ago"@
    }
}

/// Compact age text for a whole number of seconds.
pub fn fmt_age_secs(s: u64) -> (r: String)
    ensures
        r@ == age_text(s as nat),
{
    let mut out = String::new();
    if s < 60 {
        push_dec(&mut out, s as u128);
        push_str(&mut out, "s ago");
    } else if s < 3600 {
        push_dec(&mut out, (s / 60) as u128);
        push_str(&mut out, "m ago");
    } else {
        push_dec(&mut out, (s / 3600) as u128);
        push_str(&mut out, "h ago");
    }
    out
}

/// Compact human-readable age of a duration ("12s ago", "3m ago").
pub fn fmt_age(d: Duration) -> (r: String)
    ensures
        r@ == age_text(duration_secs(d) as nat),
{
    fmt_age_secs(whole_secs(&d))
}

/// One leaderboard row: a member and their net worth in cents.
pub struct LeaderRow {
    pub username: String,
    pub net_worth: i64,
    /// Rank as published by the server; informational only (the client
    /// derives rank from position).
    pub rank: Option<u64>,
}

/// One market of the catalog, holding what the client searches on. `slot`
/// is the market's position in the caller's full catalog, by which the
/// rest of its record (prices, volume) is found again.
pub struct Market {
    pub slot: usize,
    pub question: String,
    pub category: Option<String>,
}

/// The member's portfolio snapshot, in cents.
pub struct Portfolio {
    pub cash: i64,
    pub positions_value: i64,
    pub open_orders_value: i64,
    pub net_worth: i64,
}

/// One open position; `slot` finds its full record in the caller's list.
pub struct Position {
    pub slot: usize,
    pub market_id: String,
}

/// Result of a background fetch, posted back to the main loop.
pub enum FetchMsg {
    Leaderboard(Result<Vec<LeaderRow>, String>),
    Markets(Result<Vec<Market>, String>),
    Portfolio { portfolio: Result<Portfolio, String>, positions: Result<Vec<Position>, String> },
}

/// Keys the client reacts to.
#[derive(Debug, Clone, Copy, PartialEq, Eq, Structural)]
pub enum KeyCode {
    Char(char),
    Enter,
    Esc,
    Backspace,
    Delete,
    Tab,
    BackTab,
    Up,
    Down,
    Left,
    Right,
    Other,
}

/// A key press: the key and whether Control was held.
#[derive(Debug, Clone, Copy, PartialEq, Eq, Structural)]
pub struct KeyEvent {
    pub code: KeyCode,
    pub ctrl: bool,
}

impl KeyEvent {
    pub fn new(code: KeyCode, ctrl: bool) -> (k: KeyEvent)
        ensures
            k.code == code,
            k.ctrl == ctrl,
    {
        KeyEvent { code, ctrl }
    }
}

/// Events the main loop reacts to.
pub enum Event {
    Key(KeyEvent),
    Resize,
    Tick,
    Fetch(FetchMsg),
}

/// Outcomes that the event loop (which owns the runtime) must act on.
#[derive(Debug, Clone, Copy, PartialEq, Eq, Structural)]
pub enum KeyOutcome {
    Nothing,
    RefreshTab(Tab),
    RefreshAll,
}

/// Longest net-worth history kept for the portfolio sparkline.
pub const HISTORY_CAP: usize = 240;

/// The terminal client's state.
pub struct App {
    pub tab: Tab,
    pub mode: Mode,
    pub status: String,
    pub command: String,
    pub search: String,
    /// Kept between mode toggles so re-entering `/` keeps the last needle.
    pub last_search: String,
    pub leaderboard: LoadState<Vec<LeaderRow>>,
    pub markets: LoadState<Vec<Market>>,
    pub portfolio: LoadState<Portfolio>,
    pub positions: LoadState<Vec<Position>>,
    /// Net-worth snapshots (cents) gathered on each portfolio refresh.
    pub net_worth_history: VecDeque<i64>,
    pub leaderboard_sel: usize,
    pub markets_sel: usize,
    pub positions_sel: usize,
    /// A first `g` waiting for the second of the `gg` chord.
    pub pending_g: bool,
    pub should_quit: bool,
    pub has_key: bool,
}

/// The searchable texts of a market.
pub struct MarketText {
    pub question: Seq<char>,
    pub category: Option<Seq<char>>,
}

/// What the key handling reads and writes of the client's state: the
/// loaded lists appear as the texts searched on (or their length).
#[verifier::ext_equal]
pub struct AppView {
    pub tab: Tab,
    pub mode: Mode,
    pub status: Seq<char>,
    pub command: Seq<char>,
    pub search: Seq<char>,
    pub last_search: Seq<char>,
    pub leaders: Option<Seq<Seq<char>>>,
    pub markets: Option<Seq<MarketText>>,
    pub positions: Option<nat>,
    pub leaderboard_sel: int,
    pub markets_sel: int,
    pub positions_sel: int,
    pub pending_g: bool,
    pub should_quit: bool,
    pub has_key: bool,
}

/// The searchable texts of a market.
pub open spec fn market_text(m: Market) -> MarketText {
    MarketText {
        question: m.question@,
        category: match m.category {
            Some(c) => Some(c@),
            None => None,
        },
    }
}

impl View for App {
    type V = AppView;

    open spec fn view(&self) -> AppView {
        AppView {
            tab: self.tab,
            mode: self.mode,
            status: self.status@,
            command: self.command@,
            search: self.search@,
            last_search: self.last_search@,
            leaders: match self.leaderboard {
                LoadState::Loaded { data, .. } => Some(
                    data@.map_values(|r: LeaderRow| r.username@),
                ),
                _ => None,
            },
            markets: match self.markets {
                LoadState::Loaded { data, .. } => Some(data@.map_values(|m: Market| market_text(m))),
                _ => None,
            },
            positions: match self.positions {
                LoadState::Loaded { data, .. } => Some(data@.len()),
                _ => None,
            },
            leaderboard_sel: self.leaderboard_sel as int,
            markets_sel: self.markets_sel as int,
            positions_sel: self.positions_sel as int,
            pending_g: self.pending_g,
            should_quit: self.should_quit,
            has_key: self.has_key,
        }
    }
}

/// Whether a username matches a lowercased search needle.
pub open spec fn leader_shown(u: Seq<char>, needle: Seq<char>) -> bool {
    has_infix(lowercase(u), needle)
}

/// Whether a market matches a lowercased needle (question or category).
pub open spec fn market_shown(m: MarketText, needle: Seq<char>) -> bool {
    has_infix(lowercase(m.question), needle) || (m.category matches Some(c) && has_infix(
        lowercase(c),
        needle,
    ))
}

/// Selectable rows of `tab`: loaded rows matching the active search, all
/// of them when no search is active (positions are not searched); none
/// while not loaded or on Help.
pub open spec fn list_len(a: AppView, tab: Tab) -> nat {
    let needle = lowercase(a.last_search);
    match tab {
        Tab::Leaderboard => match a.leaders {
            Some(ls) => if a.last_search.len() == 0 {
                ls.len()
            } else {
                ls.filter(|u: Seq<char>| leader_shown(u, needle)).len()
            },
            None => 0,
        },
        Tab::Markets => match a.markets {
            Some(ms) => if a.last_search.len() == 0 {
                ms.len()
            } else {
                ms.filter(|m: MarketText| market_shown(m, needle)).len()
            },
            None => 0,
        },
        Tab::Portfolio => match a.positions {
            Some(n) => n,
            None => 0,
        },
        Tab::Help => 0,
    }
}

/// The selection of the current tab (always 0 on Help).
pub open spec fn selection_of(a: AppView) -> int {
    match a.tab {
        Tab::Leaderboard => a.leaderboard_sel,
        Tab::Markets => a.markets_sel,
        Tab::Portfolio => a.positions_sel,
        Tab::Help => 0,
    }
}

/// `a` with the current tab's selection set to `i` (Help has none).
pub open spec fn with_selection(a: AppView, i: int) -> AppView {
    match a.tab {
        Tab::Leaderboard => AppView { leaderboard_sel: i, ..a },
        Tab::Markets => AppView { markets_sel: i, ..a },
        Tab::Portfolio => AppView { positions_sel: i, ..a },
        Tab::Help => a,
    }
}

/// A stored selection clamped into `[0, len)` (0 for an empty list).
pub open spec fn clamped(sel: int, len: nat) -> int {
    if len == 0 {
        0
    } else if sel >= len {
        len - 1
    } else {
        sel
    }
}

/// The status line shown after the search needle is cleared.
pub open spec fn cleared_status() -> Seq<char> {
    "Search cleared."@
}

/// A NORMAL-mode key once any pending `g` was consumed: the new state and
/// the outcome, given the current tab's list length `len`.
pub open spec fn normal_move(a: AppView, k: KeyEvent, len: nat) -> (AppView, KeyOutcome) {
    let max_idx: int = if len == 0 { 0 } else { len - 1 };
    let cur = selection_of(a);
    let c = k.code;
    if c == KeyCode::Char('q') {
        (AppView { should_quit: true, ..a }, KeyOutcome::Nothing)
    } else if c == KeyCode::Esc {
        if a.last_search.len() > 0 {
            (AppView { last_search: seq![], status: cleared_status(), ..a }, KeyOutcome::Nothing)
        } else {
            (AppView { should_quit: true, ..a }, KeyOutcome::Nothing)
        }
    } else if c == KeyCode::Char(':') {
        (AppView { mode: Mode::Command, command: seq![], ..a }, KeyOutcome::Nothing)
    } else if c == KeyCode::Char('/') {
        (AppView { mode: Mode::Search, search: seq![], ..a }, KeyOutcome::Nothing)
    } else if c == KeyCode::Char('?') {
        (AppView { tab: Tab::Help, ..a }, KeyOutcome::Nothing)
    } else if c == KeyCode::Tab || c == KeyCode::Char('l') {
        (AppView { tab: next_tab_of(a.tab), ..a }, KeyOutcome::Nothing)
    } else if c == KeyCode::BackTab || c == KeyCode::Char('h') {
        (AppView { tab: prev_tab_of(a.tab), ..a }, KeyOutcome::Nothing)
    } else if c == KeyCode::Char('1') {
        (AppView { tab: Tab::Leaderboard, ..a }, KeyOutcome::Nothing)
    } else if c == KeyCode::Char('2') {
        (AppView { tab: Tab::Markets, ..a }, KeyOutcome::Nothing)
    } else if c == KeyCode::Char('3') {
        (AppView { tab: Tab::Portfolio, ..a }, KeyOutcome::Nothing)
    } else if c == KeyCode::Char('4') {
        (AppView { tab: Tab::Help, ..a }, KeyOutcome::Nothing)
    } else if c == KeyCode::Char('j') || c == KeyCode::Down {
        (if cur < max_idx { with_selection(a, cur + 1) } else { a }, KeyOutcome::Nothing)
    } else if c == KeyCode::Char('k') || c == KeyCode::Up {
        (if cur > 0 { with_selection(a, cur - 1) } else { a }, KeyOutcome::Nothing)
    } else if c == KeyCode::Char('g') {
        (AppView { pending_g: true, ..a }, KeyOutcome::Nothing)
    } else if c == KeyCode::Char('G') {
        (with_selection(a, max_idx), KeyOutcome::Nothing)
    } else if c == KeyCode::Char('d') && k.ctrl {
        (with_selection(a, if cur + 10 < max_idx { cur + 10 } else { max_idx }), KeyOutcome::Nothing)
    } else if c == KeyCode::Char('u') && k.ctrl {
        (with_selection(a, if cur >= 10 { cur - 10 } else { 0 }), KeyOutcome::Nothing)
    } else if c == KeyCode::Char('r') {
        (a, KeyOutcome::RefreshTab(a.tab))
    } else if c == KeyCode::Char('R') {
        (a, KeyOutcome::RefreshAll)
    } else if c == KeyCode::Char('n') {
        (if a.last_search.len() > 0 && len > 0 {
            with_selection(a, if cur >= max_idx { 0 } else { cur + 1 })
        } else {
            a
        }, KeyOutcome::Nothing)
    } else {
        (a, KeyOutcome::Nothing)
    }
}

/// A key in NORMAL mode. A pending `g` is consumed first (`gg` jumps to
/// the top); refresh keys report at once; otherwise, off the Help tab, the
/// selection is clamped to the (possibly shorter) current list.
pub open spec fn normal_step(a0: AppView, k: KeyEvent) -> (AppView, KeyOutcome) {
    let a = AppView { pending_g: false, ..a0 };
    if a0.pending_g && k.code == KeyCode::Char('g') {
        (with_selection(a, 0), KeyOutcome::Nothing)
    } else {
        let (b, out) = normal_move(a, k, list_len(a, a.tab));
        if out != KeyOutcome::Nothing {
            (b, out)
        } else if b.tab == Tab::Help {
            (b, KeyOutcome::Nothing)
        } else {
            let n = list_len(b, b.tab);
            if n > 0 && selection_of(b) >= n {
                (with_selection(b, n - 1), KeyOutcome::Nothing)
            } else {
                (b, KeyOutcome::Nothing)
            }
        }
    }
}

/// The status line for an unknown tab number.
pub open spec fn unknown_tab_status(n: nat) -> Seq<char> {
    "Unknown tab: "@ + dec(n) + " (1–4)"@
}

/// The status line for an unknown command.
pub open spec fn unknown_command_status(cmd: Seq<char>) -> Seq<char> {
    "Unknown command: :"@ + cmd
}

/// Running a `:` command line (already left COMMAND mode).
pub open spec fn execute_step(a: AppView, line: Seq<char>) -> (AppView, KeyOutcome) {
    let t = trim_text(line);
    if t == ""@ {
        (a, KeyOutcome::Nothing)
    } else if t == "q"@ || t == "quit"@ || t == "exit"@ {
        (AppView { should_quit: true, ..a }, KeyOutcome::Nothing)
    } else if t == "h"@ || t == "help"@ {
        (AppView { tab: Tab::Help, ..a }, KeyOutcome::Nothing)
    } else if t == "r"@ || t == "refresh"@ {
        (a, KeyOutcome::RefreshTab(a.tab))
    } else if t == "R"@ || t == "refresh!"@ {
        (a, KeyOutcome::RefreshAll)
    } else if t == "leaderboard"@ || t == "lb"@ {
        (AppView { tab: Tab::Leaderboard, ..a }, KeyOutcome::Nothing)
    } else if t == "markets"@ || t == "m"@ {
        (AppView { tab: Tab::Markets, ..a }, KeyOutcome::Nothing)
    } else if t == "portfolio"@ || t == "p"@ {
        (AppView { tab: Tab::Portfolio, ..a }, KeyOutcome::Nothing)
    } else if t.len() >= 4 && t.take(4) == "tab "@ {
        match parsed_usize(trim_text(t.skip(4))) {
            Some(n) => if 1 <= n <= 4 {
                (AppView { tab: tab_at(n - 1), ..a }, KeyOutcome::Nothing)
            } else {
                (AppView { status: unknown_tab_status(n as nat), ..a }, KeyOutcome::Nothing)
            },
            None => (a, KeyOutcome::Nothing),
        }
    } else {
        (AppView { status: unknown_command_status(t), ..a }, KeyOutcome::Nothing)
    }
}

/// A key in COMMAND mode: edit the command line, cancel, or run it.
pub open spec fn command_step(a: AppView, k: KeyEvent) -> (AppView, KeyOutcome) {
    match k.code {
        KeyCode::Esc => (AppView { mode: Mode::Normal, command: seq![], ..a }, KeyOutcome::Nothing),
        KeyCode::Backspace => if a.command.len() == 0 {
            (AppView { mode: Mode::Normal, ..a }, KeyOutcome::Nothing)
        } else {
            (AppView { command: a.command.drop_last(), ..a }, KeyOutcome::Nothing)
        },
        KeyCode::Enter => execute_step(
            AppView { mode: Mode::Normal, command: seq![], ..a },
            a.command,
        ),
        KeyCode::Char(ch) => (AppView { command: a.command.push(ch), ..a }, KeyOutcome::Nothing),
        _ => (a, KeyOutcome::Nothing),
    }
}

/// The status line after a search is applied.
pub open spec fn filter_status(needle: Seq<char>) -> Seq<char> {
    if needle.len() == 0 {
        cleared_status()
    } else {
        "Filter: /"@ + needle
    }
}

/// A key in SEARCH mode: edit the needle, cancel, or apply it (which
/// resets the current tab's selection).
pub open spec fn search_step(a: AppView, k: KeyEvent) -> (AppView, KeyOutcome) {
    match k.code {
        KeyCode::Esc => (AppView { mode: Mode::Normal, search: seq![], ..a }, KeyOutcome::Nothing),
        KeyCode::Backspace => if a.search.len() == 0 {
            (AppView { mode: Mode::Normal, ..a }, KeyOutcome::Nothing)
        } else {
            (AppView { search: a.search.drop_last(), ..a }, KeyOutcome::Nothing)
        },
        KeyCode::Enter => (
            with_selection(
                AppView {
                    last_search: a.search,
                    search: seq![],
                    mode: Mode::Normal,
                    status: filter_status(a.search),
                    ..a
                },
                0,
            ),
            KeyOutcome::Nothing,
        ),
        KeyCode::Char(ch) => (AppView { search: a.search.push(ch), ..a }, KeyOutcome::Nothing),
        _ => (a, KeyOutcome::Nothing),
    }
}

/// Any key press: Ctrl-C quits from every mode; otherwise the mode decides.
pub open spec fn key_step(a: AppView, k: KeyEvent) -> (AppView, KeyOutcome) {
    if k.ctrl && k.code == KeyCode::Char('c') {
        (AppView { should_quit: true, ..a }, KeyOutcome::Nothing)
    } else {
        match a.mode {
            Mode::Normal => normal_step(a, k),
            Mode::Command => command_step(a, k),
            Mode::Search => search_step(a, k),
        }
    }
}

/// The loaded data and the net-worth history are the same in `a` and `b`.
pub open spec fn same_data(a: App, b: App) -> bool {
    a.leaderboard == b.leaderboard && a.markets == b.markets && a.portfolio == b.portfolio
        && a.positions == b.positions && a.net_worth_history == b.net_worth_history
}

/// `s` holds what a fetch returned: its data once loaded, or its error.
pub open spec fn loaded_from<T>(s: LoadState<T>, r: Result<T, String>) -> bool {
    match r {
        Ok(d) => s is Loaded && s->data == d,
        Err(e) => s == LoadState::<T>::Error(e),
    }
}

/// Everything but the loaded lists and the selections is the same.
pub open spec fn controls_unchanged(a: AppView, b: AppView) -> bool {
    &&& a.tab == b.tab
    &&& a.mode == b.mode
    &&& a.status == b.status
    &&& a.command == b.command
    &&& a.search == b.search
    &&& a.last_search == b.last_search
    &&& a.pending_g == b.pending_g
    &&& a.should_quit == b.should_quit
    &&& a.has_key == b.has_key
}

/// The net-worth history after recording `nw`: the oldest snapshot drops
/// out once the history is full.
pub open spec fn history_after(h: Seq<i64>, nw: i64) -> Seq<i64> {
    if h.len() == HISTORY_CAP {
        h.drop_first().push(nw)
    } else {
        h.push(nw)
    }
}

/// The plain value of a leaderboard row.
pub struct LeaderRowView {
    pub username: Seq<char>,
    pub net_worth: i64,
    pub rank: Option<u64>,
}

/// The plain value of a leaderboard row.
pub open spec fn leader_row_view(r: LeaderRow) -> LeaderRowView {
    LeaderRowView { username: r.username@, net_worth: r.net_worth, rank: r.rank }
}

/// The plain value of a market: its slot and its searchable texts.
pub open spec fn market_view(m: Market) -> (usize, MarketText) {
    (m.slot, market_text(m))
}

fn copy_leader_row(r: &LeaderRow) -> (c: LeaderRow)
    ensures
        leader_row_view(c) == leader_row_view(*r),
{
    LeaderRow { username: r.username.clone(), net_worth: r.net_worth, rank: r.rank }
}

fn copy_market(m: &Market) -> (c: Market)
    ensures
        market_view(c) == market_view(*m),
{
    let category = match &m.category {
        Some(x) => Some(x.clone()),
        None => None,
    };
    Market { slot: m.slot, question: m.question.clone(), category }
}

fn copy_string(s: &String) -> (r: String)
    ensures
        r@ == s@,
{
    s.clone()
}

fn text_matches(text: &str, needle: &[char]) -> (r: bool)
    ensures
        r == has_infix(lowercase(text@), needle@),
{
    let low = to_lower(text);
    let cs = to_chars(low.as_str());
    contains_chars(cs.as_slice(), needle)
}

fn market_matches(m: &Market, needle: &[char]) -> (r: bool)
    ensures
        r == market_shown(market_text(*m), needle@),
{
    if text_matches(m.question.as_str(), needle) {
        true
    } else {
        match &m.category {
            Some(c) => text_matches(c.as_str(), needle),
            None => false,
        }
    }
}

fn count_leaders(data: &[LeaderRow], needle: &[char]) -> (count: usize)
    ensures
        count == data@.map_values(|r: LeaderRow| r.username@).filter(
            |u: Seq<char>| leader_shown(u, needle@),
        ).len(),
{
    let ghost names = data@.map_values(|r: LeaderRow| r.username@);
    let ghost pred = |u: Seq<char>| leader_shown(u, needle@);
    let mut count: usize = 0;
    let mut i: usize = 0;
    while i < data.len()
        invariant
            i <= data@.len(),
            names == data@.map_values(|r: LeaderRow| r.username@),
            pred == (|u: Seq<char>| leader_shown(u, needle@)),
            count == names.take(i as int).filter(pred).len(),
            count <= i,
        decreases data@.len() - i,
    {
        proof {
            assert(names.take(i + 1) =~= names.take(i as int).push(names[i as int]));
            names.take(i as int).lemma_filter_push(names[i as int], pred);
        }
        if text_matches(data[i].username.as_str(), needle) {
            count = count + 1;
        }
        i = i + 1;
    }
    proof {
        assert(names.take(i as int) =~= names);
    }
    count
}

fn count_markets(data: &[Market], needle: &[char]) -> (count: usize)
    ensures
        count == data@.map_values(|m: Market| market_text(m)).filter(
            |m: MarketText| market_shown(m, needle@),
        ).len(),
{
    let ghost texts = data@.map_values(|m: Market| market_text(m));
    let ghost pred = |m: MarketText| market_shown(m, needle@);
    let mut count: usize = 0;
    let mut i: usize = 0;
    while i < data.len()
        invariant
            i <= data@.len(),
            texts == data@.map_values(|m: Market| market_text(m)),
            pred == (|m: MarketText| market_shown(m, needle@)),
            count == texts.take(i as int).filter(pred).len(),
            count <= i,
        decreases data@.len() - i,
    {
        proof {
            assert(texts.take(i + 1) =~= texts.take(i as int).push(texts[i as int]));
            texts.take(i as int).lemma_filter_push(texts[i as int], pred);
        }
        if market_matches(&data[i], needle) {
            count = count + 1;
        }
        i = i + 1;
    }
    proof {
        assert(texts.take(i as int) =~= texts);
    }
    count
}

impl App {
    /// The lowercased active search needle.
    fn needle(&self) -> (n: Vec<char>)
        ensures
            n@ == lowercase(self.last_search@),
    {
        let low = to_lower(self.last_search.as_str());
        to_chars(low.as_str())
    }

    /// Selectable-row count for `tab`, honoring the active search filter.
    fn list_len(&self, tab: Tab) -> (n: usize)
        ensures
            n == list_len(self@, tab),
    {
        let searching = !self.last_search.as_str().is_empty();
        match tab {
            Tab::Leaderboard => match &self.leaderboard {
                LoadState::Loaded { data, .. } => if searching {
                    let needle = self.needle();
                    count_leaders(data.as_slice(), needle.as_slice())
                } else {
                    data.len()
                },
                _ => 0,
            },
            Tab::Markets => match &self.markets {
                LoadState::Loaded { data, .. } => if searching {
                    let needle = self.needle();
                    count_markets(data.as_slice(), needle.as_slice())
                } else {
                    data.len()
                },
                _ => 0,
            },
            Tab::Portfolio => match &self.positions {
                LoadState::Loaded { data, .. } => data.len(),
                _ => 0,
            },
            Tab::Help => 0,
        }
    }

    /// How many selectable rows the current tab has.
    pub fn current_list_len(&self) -> (n: usize)
        ensures
            n == list_len(self@, self.tab),
    {
        self.list_len(self.tab)
    }

    /// The selection of the current tab.
    pub fn selection(&self) -> (i: usize)
        ensures
            i == selection_of(self@),
    {
        match self.tab {
            Tab::Leaderboard => self.leaderboard_sel,
            Tab::Markets => self.markets_sel,
            Tab::Portfolio => self.positions_sel,
            Tab::Help => 0,
        }
    }

    fn set_selection(&mut self, i: usize)
        ensures
            final(self)@ == with_selection(old(self)@, i as int),
            same_data(*old(self), *final(self)),
    {
        match self.tab {
            Tab::Leaderboard => self.leaderboard_sel = i,
            Tab::Markets => self.markets_sel = i,
            Tab::Portfolio => self.positions_sel = i,
            Tab::Help => {},
        }
    }

    /// Handle one key press.
    pub fn handle_key(&mut self, key: KeyEvent) -> (out: KeyOutcome)
        ensures
            final(self)@ == key_step(old(self)@, key).0,
            out == key_step(old(self)@, key).1,
            same_data(*old(self), *final(self)),
    {
        if key.ctrl && key.code == KeyCode::Char('c') {
            self.should_quit = true;
            return KeyOutcome::Nothing;
        }
        match self.mode {
            Mode::Normal => self.handle_normal_key(key),
            Mode::Command => self.handle_command_key(key),
            Mode::Search => self.handle_search_key(key),
        }
    }

    fn handle_normal_key(&mut self, key: KeyEvent) -> (out: KeyOutcome)
        ensures
            final(self)@ == normal_step(old(self)@, key).0,
            out == normal_step(old(self)@, key).1,
            same_data(*old(self), *final(self)),
    {
        let ghost a0 = self@;
        if self.pending_g {
            self.pending_g = false;
            if key.code == KeyCode::Char('g') {
                self.set_selection(0);
                return KeyOutcome::Nothing;
            }
        }
        proof {
            assert(self@ =~= AppView { pending_g: false, ..a0 });
        }
        let len = self.current_list_len();
        let out = self.normal_move(key, len);
        if out != KeyOutcome::Nothing {
            return out;
        }
        if self.tab == Tab::Help {
            return KeyOutcome::Nothing;
        }
        let new_len = self.current_list_len();
        if new_len > 0 && self.selection() >= new_len {
            self.set_selection(new_len - 1);
        }
        KeyOutcome::Nothing
    }

    fn normal_move(&mut self, key: KeyEvent, len: usize) -> (out: KeyOutcome)
        ensures
            final(self)@ == normal_move(old(self)@, key, len as nat).0,
            out == normal_move(old(self)@, key, len as nat).1,
            same_data(*old(self), *final(self)),
    {
        let max_idx: usize = if len == 0 { 0 } else { len - 1 };
        let cur = self.selection();
        let c = key.code;
        if c == KeyCode::Char('q') {
            self.should_quit = true;
        } else if c == KeyCode::Esc {
            if !self.last_search.as_str().is_empty() {
                self.last_search = String::new();
                self.status = String::from_str("Search cleared.");
            } else {
                self.should_quit = true;
            }
        } else if c == KeyCode::Char(':') {
            self.mode = Mode::Command;
            self.command = String::new();
        } else if c == KeyCode::Char('/') {
            self.mode = Mode::Search;
            self.search = String::new();
        } else if c == KeyCode::Char('?') {
            self.tab = Tab::Help;
        } else if c == KeyCode::Tab || c == KeyCode::Char('l') {
            self.tab = next_tab(self.tab);
        } else if c == KeyCode::BackTab || c == KeyCode::Char('h') {
            self.tab = prev_tab(self.tab);
        } else if c == KeyCode::Char('1') {
            self.tab = Tab::Leaderboard;
        } else if c == KeyCode::Char('2') {
            self.tab = Tab::Markets;
        } else if c == KeyCode::Char('3') {
            self.tab = Tab::Portfolio;
        } else if c == KeyCode::Char('4') {
            self.tab = Tab::Help;
        } else if c == KeyCode::Char('j') || c == KeyCode::Down {
            if cur < max_idx {
                self.set_selection(cur + 1);
            }
        } else if c == KeyCode::Char('k') || c == KeyCode::Up {
            if cur > 0 {
                self.set_selection(cur - 1);
            }
        } else if c == KeyCode::Char('g') {
            self.pending_g = true;
        } else if c == KeyCode::Char('G') {
            self.set_selection(max_idx);
        } else if c == KeyCode::Char('d') && key.ctrl {
            let target = if cur < max_idx && max_idx - cur > 10 { cur + 10 } else { max_idx };
            self.set_selection(target);
        } else if c == KeyCode::Char('u') && key.ctrl {
            let target = if cur >= 10 { cur - 10 } else { 0 };
            self.set_selection(target);
        } else if c == KeyCode::Char('r') {
            return KeyOutcome::RefreshTab(self.tab);
        } else if c == KeyCode::Char('R') {
            return KeyOutcome::RefreshAll;
        } else if c == KeyCode::Char('n') {
            if !self.last_search.as_str().is_empty() && len > 0 {
                let next = if cur >= max_idx { 0 } else { cur + 1 };
                self.set_selection(next);
            }
        }
        KeyOutcome::Nothing
    }

    fn handle_command_key(&mut self, key: KeyEvent) -> (out: KeyOutcome)
        ensures
            final(self)@ == command_step(old(self)@, key).0,
            out == command_step(old(self)@, key).1,
            same_data(*old(self), *final(self)),
    {
        match key.code {
            KeyCode::Esc => {
                self.mode = Mode::Normal;
                self.command = String::new();
            },
            KeyCode::Backspace => {
                if pop_char(&mut self.command).is_none() {
                    self.mode = Mode::Normal;
                }
            },
            KeyCode::Enter => {
                let cmd = to_chars(self.command.as_str());
                self.command = String::new();
                self.mode = Mode::Normal;
                return self.execute_command(cmd.as_slice());
            },
            KeyCode::Char(ch) => {
                push_char(&mut self.command, ch);
            },
            _ => {},
        }
        KeyOutcome::Nothing
    }

    fn handle_search_key(&mut self, key: KeyEvent) -> (out: KeyOutcome)
        ensures
            final(self)@ == search_step(old(self)@, key).0,
            out == search_step(old(self)@, key).1,
            same_data(*old(self), *final(self)),
    {
        match key.code {
            KeyCode::Esc => {
                self.mode = Mode::Normal;
                self.search = String::new();
            },
            KeyCode::Backspace => {
                if pop_char(&mut self.search).is_none() {
                    self.mode = Mode::Normal;
                }
            },
            KeyCode::Enter => {
                let needle = copy_string(&self.search);
                self.search = String::new();
                self.mode = Mode::Normal;
                self.status = if needle.as_str().is_empty() {
                    String::from_str("Search cleared.")
                } else {
                    let mut st = String::from_str("Filter: /");
                    push_str(&mut st, needle.as_str());
                    st
                };
                self.last_search = needle;
                self.set_selection(0);
            },
            KeyCode::Char(ch) => {
                push_char(&mut self.search, ch);
            },
            _ => {},
        }
        KeyOutcome::Nothing
    }

    fn execute_command(&mut self, cmd: &[char]) -> (out: KeyOutcome)
        ensures
            final(self)@ == execute_step(old(self)@, cmd@).0,
            out == execute_step(old(self)@, cmd@).1,
            same_data(*old(self), *final(self)),
    {
        let t = trim_chars(cmd);
        let ts = t.as_slice();
        if text_is(ts, "") {
            KeyOutcome::Nothing
        } else if text_is(ts, "q") || text_is(ts, "quit") || text_is(ts, "exit") {
            self.should_quit = true;
            KeyOutcome::Nothing
        } else if text_is(ts, "h") || text_is(ts, "help") {
            self.tab = Tab::Help;
            KeyOutcome::Nothing
        } else if text_is(ts, "r") || text_is(ts, "refresh") {
            KeyOutcome::RefreshTab(self.tab)
        } else if text_is(ts, "R") || text_is(ts, "refresh!") {
            KeyOutcome::RefreshAll
        } else if text_is(ts, "leaderboard") || text_is(ts, "lb") {
            self.tab = Tab::Leaderboard;
            KeyOutcome::Nothing
        } else if text_is(ts, "markets") || text_is(ts, "m") {
            self.tab = Tab::Markets;
            KeyOutcome::Nothing
        } else if text_is(ts, "portfolio") || text_is(ts, "p") {
            self.tab = Tab::Portfolio;
            KeyOutcome::Nothing
        } else if ts.len() >= 4 && text_is(slice_take(ts, 4), "tab ") {
            let rest = trim_chars(slice_skip(ts, 4));
            match parse_usize(rest.as_slice()) {
                Some(n) => {
                    if 1 <= n && n <= 4 {
                        self.tab = Tab::from_index(n - 1);
                    } else {
                        let mut st = String::from_str("Unknown tab: ");
                        push_dec(&mut st, n as u128);
                        push_str(&mut st, " (1–4)");
                        self.status = st;
                    }
                },
                None => {},
            }
            KeyOutcome::Nothing
        } else {
            let mut st = String::from_str("Unknown command: :");
            push_chars(&mut st, ts);
            self.status = st;
            KeyOutcome::Nothing
        }
    }

    /// A fresh client: Leaderboard tab, NORMAL mode, nothing loaded.
    pub fn new(has_key: bool) -> (app: App)
        ensures
            app.tab == Tab::Leaderboard,
            app.mode == Mode::Normal,
            app.status@ == (if has_key {
                "Connected. Press ? for help, : for commands."@
            } else {
                "No POLY_API_KEY set — public views work; Portfolio needs your key."@
            }),
            app.command@ == Seq::<char>::empty(),
            app.search@ == Seq::<char>::empty(),
            app.last_search@ == Seq::<char>::empty(),
            app.leaderboard is Idle,
            app.markets is Idle,
            app.portfolio is Idle,
            app.positions is Idle,
            app.net_worth_history@ == Seq::<i64>::empty(),
            app.leaderboard_sel == 0,
            app.markets_sel == 0,
            app.positions_sel == 0,
            !app.pending_g,
            !app.should_quit,
            app.has_key == has_key,
    {
        let status = if has_key {
            String::from_str("Connected. Press ? for help, : for commands.")
        } else {
            String::from_str("No POLY_API_KEY set — public views work; Portfolio needs your key.")
        };
        App {
            tab: Tab::Leaderboard,
            mode: Mode::Normal,
            status,
            command: String::new(),
            search: String::new(),
            last_search: String::new(),
            leaderboard: LoadState::Idle,
            markets: LoadState::Idle,
            portfolio: LoadState::Idle,
            positions: LoadState::Idle,
            net_worth_history: VecDeque::with_capacity(HISTORY_CAP),
            leaderboard_sel: 0,
            markets_sel: 0,
            positions_sel: 0,
            pending_g: false,
            should_quit: false,
            has_key,
        }
    }

    /// Clamp the stored selection of `tab` into `[0, len)` after its data
    /// changed, whichever tab is active.
    fn clamp_selection(&mut self, tab: Tab)
        ensures
            same_data(*old(self), *final(self)),
            controls_unchanged(old(self)@, final(self)@),
            final(self).leaderboard_sel == (if tab == Tab::Leaderboard {
                clamped(old(self).leaderboard_sel as int, list_len(old(self)@, tab))
            } else {
                old(self).leaderboard_sel as int
            }),
            final(self).markets_sel == (if tab == Tab::Markets {
                clamped(old(self).markets_sel as int, list_len(old(self)@, tab))
            } else {
                old(self).markets_sel as int
            }),
            final(self).positions_sel == (if tab == Tab::Portfolio {
                clamped(old(self).positions_sel as int, list_len(old(self)@, tab))
            } else {
                old(self).positions_sel as int
            }),
    {
        let len = self.list_len(tab);
        let sel = match tab {
            Tab::Leaderboard => self.leaderboard_sel,
            Tab::Markets => self.markets_sel,
            Tab::Portfolio => self.positions_sel,
            Tab::Help => {
                return;
            },
        };
        let v = if len == 0 {
            0
        } else if sel >= len {
            len - 1
        } else {
            sel
        };
        match tab {
            Tab::Leaderboard => self.leaderboard_sel = v,
            Tab::Markets => self.markets_sel = v,
            Tab::Portfolio => self.positions_sel = v,
            Tab::Help => {},
        }
    }

    /// Record a portfolio snapshot for the sparkline, dropping the oldest
    /// once the history is full.
    pub fn push_net_worth(&mut self, nw: i64)
        ensures
            final(self).net_worth_history@ == history_after(old(self).net_worth_history@, nw),
            final(self)@ == old(self)@,
            final(self).leaderboard == old(self).leaderboard,
            final(self).markets == old(self).markets,
            final(self).portfolio == old(self).portfolio,
            final(self).positions == old(self).positions,
    {
        if self.net_worth_history.len() == HISTORY_CAP {
            self.net_worth_history.pop_front();
        }
        self.net_worth_history.push_back(nw);
    }

    /// Apply a completed fetch to its dataset and clamp that dataset's
    /// own selection (the fetch may land while another tab is shown).
    pub fn apply_fetch(&mut self, msg: FetchMsg)
        ensures
            controls_unchanged(old(self)@, final(self)@),
            match msg {
                FetchMsg::Leaderboard(res) => {
                    &&& loaded_from(final(self).leaderboard, res)
                    &&& final(self).markets == old(self).markets
                    &&& final(self).portfolio == old(self).portfolio
                    &&& final(self).positions == old(self).positions
                    &&& final(self).net_worth_history == old(self).net_worth_history
                    &&& final(self).leaderboard_sel == clamped(
                        old(self).leaderboard_sel as int,
                        list_len(final(self)@, Tab::Leaderboard),
                    )
                    &&& final(self).markets_sel == old(self).markets_sel
                    &&& final(self).positions_sel == old(self).positions_sel
                },
                FetchMsg::Markets(res) => {
                    &&& loaded_from(final(self).markets, res)
                    &&& final(self).leaderboard == old(self).leaderboard
                    &&& final(self).portfolio == old(self).portfolio
                    &&& final(self).positions == old(self).positions
                    &&& final(self).net_worth_history == old(self).net_worth_history
                    &&& final(self).markets_sel == clamped(
                        old(self).markets_sel as int,
                        list_len(final(self)@, Tab::Markets),
                    )
                    &&& final(self).leaderboard_sel == old(self).leaderboard_sel
                    &&& final(self).positions_sel == old(self).positions_sel
                },
                FetchMsg::Portfolio { portfolio, positions } => {
                    &&& loaded_from(final(self).portfolio, portfolio)
                    &&& loaded_from(final(self).positions, positions)
                    &&& final(self).leaderboard == old(self).leaderboard
                    &&& final(self).markets == old(self).markets
                    &&& final(self).net_worth_history@ == match portfolio {
                        Ok(p) => history_after(old(self).net_worth_history@, p.net_worth),
                        Err(_) => old(self).net_worth_history@,
                    }
                    &&& final(self).positions_sel == clamped(
                        old(self).positions_sel as int,
                        list_len(final(self)@, Tab::Portfolio),
                    )
                    &&& final(self).leaderboard_sel == old(self).leaderboard_sel
                    &&& final(self).markets_sel == old(self).markets_sel
                },
            },
    {
        let at = now();
        match msg {
            FetchMsg::Leaderboard(res) => {
                self.leaderboard = match res {
                    Ok(data) => LoadState::Loaded { data, at },
                    Err(e) => LoadState::Error(e),
                };
                self.clamp_selection(Tab::Leaderboard);
            },
            FetchMsg::Markets(res) => {
                self.markets = match res {
                    Ok(data) => LoadState::Loaded { data, at },
                    Err(e) => LoadState::Error(e),
                };
                self.clamp_selection(Tab::Markets);
            },
            FetchMsg::Portfolio { portfolio, positions } => {
                self.portfolio = match portfolio {
                    Ok(p) => {
                        self.push_net_worth(p.net_worth);
                        LoadState::Loaded { data: p, at }
                    },
                    Err(e) => LoadState::Error(e),
                };
                self.positions = match positions {
                    Ok(data) => LoadState::Loaded { data, at },
                    Err(e) => LoadState::Error(e),
                };
                self.clamp_selection(Tab::Portfolio);
            },
        }
    }

    /// Mark the dataset(s) behind `tab` as in flight.
    pub fn mark_loading(&mut self, tab: Tab)
        ensures
            controls_unchanged(old(self)@, final(self)@),
            final(self).leaderboard_sel == old(self).leaderboard_sel,
            final(self).markets_sel == old(self).markets_sel,
            final(self).positions_sel == old(self).positions_sel,
            final(self).net_worth_history == old(self).net_worth_history,
            tab == Tab::Leaderboard ==> final(self).leaderboard is Loading,
            tab != Tab::Leaderboard ==> final(self).leaderboard == old(self).leaderboard,
            tab == Tab::Markets ==> final(self).markets is Loading,
            tab != Tab::Markets ==> final(self).markets == old(self).markets,
            tab == Tab::Portfolio ==> final(self).portfolio is Loading
                && final(self).positions is Loading,
            tab != Tab::Portfolio ==> final(self).portfolio == old(self).portfolio
                && final(self).positions == old(self).positions,
    {
        match tab {
            Tab::Leaderboard => self.leaderboard = LoadState::Loading,
            Tab::Markets => self.markets = LoadState::Loading,
            Tab::Portfolio => {
                self.portfolio = LoadState::Loading;
                self.positions = LoadState::Loading;
            },
            Tab::Help => {},
        }
    }

    /// Time since the dataset behind `tab` loaded, if it has.
    pub fn elapsed_since_load(&self, tab: Tab) -> (r: Option<Duration>)
        ensures
            (r is Some) == match tab {
                Tab::Leaderboard => self.leaderboard is Loaded,
                Tab::Markets => self.markets is Loaded,
                Tab::Portfolio => self.portfolio is Loaded,
                Tab::Help => false,
            },
    {
        let at = match tab {
            Tab::Leaderboard => self.leaderboard.loaded_at(),
            Tab::Markets => self.markets.loaded_at(),
            Tab::Portfolio => self.portfolio.loaded_at(),
            Tab::Help => None,
        };
        match at {
            Some(t) => Some(elapsed(&t)),
            None => None,
        }
    }

    /// The leaderboard rows matching the active search (all of them when
    /// no search is active), once loaded.
    pub fn filtered_leaderboard(&self) -> (r: Option<Vec<LeaderRow>>)
        ensures
            (r is Some) == (self.leaderboard is Loaded),
            self.leaderboard is Loaded && self.last_search@.len() == 0 ==> r.unwrap()@.map_values(
                |x: LeaderRow| leader_row_view(x),
            ) == self.leaderboard->data@.map_values(|x: LeaderRow| leader_row_view(x)),
            self.leaderboard is Loaded && self.last_search@.len() > 0 ==> r.unwrap()@.map_values(
                |x: LeaderRow| leader_row_view(x),
            ) == self.leaderboard->data@.map_values(|x: LeaderRow| leader_row_view(x)).filter(
                |v: LeaderRowView| leader_shown(v.username, lowercase(self.last_search@)),
            ),
    {
        match &self.leaderboard {
            LoadState::Loaded { data, .. } if self.last_search.as_str().is_empty() => {
                let mut out: Vec<LeaderRow> = Vec::new();
                let mut i: usize = 0;
                while i < data.len()
                    invariant
                        i <= data@.len(),
                        out@.len() == i,
                        out@.map_values(|x: LeaderRow| leader_row_view(x)) =~= data@.take(
                            i as int,
                        ).map_values(|x: LeaderRow| leader_row_view(x)),
                    decreases data@.len() - i,
                {
                    let ghost before = out@;
                    out.push(copy_leader_row(&data[i]));
                    proof {
                        assert(data@.take(i + 1) =~= data@.take(i as int).push(data@[i as int]));
                        assert(out@ =~= before.push(out@[i as int]));
                        assert(data@.take(i + 1).map_values(|x: LeaderRow| leader_row_view(x)) =~= data@.take(
                            i as int,
                        ).map_values(|x: LeaderRow| leader_row_view(x)).push(leader_row_view(data@[i as int])));
                        assert(out@.map_values(|x: LeaderRow| leader_row_view(x)) =~= before.map_values(
                            |x: LeaderRow| leader_row_view(x),
                        ).push(leader_row_view(out@[i as int])));
                    }
                    i = i + 1;
                }
                proof {
                    assert(data@.take(i as int) =~= data@);
                }
                Some(out)
            },
            LoadState::Loaded { data, .. } => {
                let needle = self.needle();
                let ghost rows = data@.map_values(|x: LeaderRow| leader_row_view(x));
                let ghost pred = |v: LeaderRowView| leader_shown(v.username, needle@);
                let mut out: Vec<LeaderRow> = Vec::new();
                let mut i: usize = 0;
                while i < data.len()
                    invariant
                        i <= data@.len(),
                        rows == data@.map_values(|x: LeaderRow| leader_row_view(x)),
                        pred == (|v: LeaderRowView| leader_shown(v.username, needle@)),
                        out@.map_values(|x: LeaderRow| leader_row_view(x)) == rows.take(
                            i as int,
                        ).filter(pred),
                    decreases data@.len() - i,
                {
                    proof {
                        assert(rows.take(i + 1) =~= rows.take(i as int).push(rows[i as int]));
                        rows.take(i as int).lemma_filter_push(rows[i as int], pred);
                    }
                    if text_matches(data[i].username.as_str(), needle.as_slice()) {
                        let ghost before = out@;
                        out.push(copy_leader_row(&data[i]));
                        proof {
                            assert(out@.map_values(|x: LeaderRow| leader_row_view(x)) =~= before.map_values(
                                |x: LeaderRow| leader_row_view(x),
                            ).push(rows[i as int]));
                        }
                    }
                    i = i + 1;
                }
                proof {
                    assert(rows.take(i as int) =~= rows);
                }
                Some(out)
            },
            _ => None,
        }
    }

    /// The markets matching the active search (all of them when no search
    /// is active), once loaded.
    pub fn filtered_markets(&self) -> (r: Option<Vec<Market>>)
        ensures
            (r is Some) == (self.markets is Loaded),
            self.markets is Loaded && self.last_search@.len() == 0 ==> r.unwrap()@.map_values(
                |m: Market| market_view(m),
            ) == self.markets->data@.map_values(|m: Market| market_view(m)),
            self.markets is Loaded && self.last_search@.len() > 0 ==> r.unwrap()@.map_values(
                |m: Market| market_view(m),
            ) == self.markets->data@.map_values(|m: Market| market_view(m)).filter(
                |v: (usize, MarketText)| market_shown(v.1, lowercase(self.last_search@)),
            ),
    {
        match &self.markets {
            LoadState::Loaded { data, .. } if self.last_search.as_str().is_empty() => {
                let mut out: Vec<Market> = Vec::new();
                let mut i: usize = 0;
                while i < data.len()
                    invariant
                        i <= data@.len(),
                        out@.len() == i,
                        out@.map_values(|m: Market| market_view(m)) =~= data@.take(i as int).map_values(
                            |m: Market| market_view(m),
                        ),
                    decreases data@.len() - i,
                {
                    let ghost before = out@;
                    out.push(copy_market(&data[i]));
                    proof {
                        assert(data@.take(i + 1) =~= data@.take(i as int).push(data@[i as int]));
                        assert(out@ =~= before.push(out@[i as int]));
                        assert(data@.take(i + 1).map_values(|m: Market| market_view(m)) =~= data@.take(
                            i as int,
                        ).map_values(|m: Market| market_view(m)).push(market_view(data@[i as int])));
                        assert(out@.map_values(|m: Market| market_view(m)) =~= before.map_values(
                            |m: Market| market_view(m),
                        ).push(market_view(out@[i as int])));
                    }
                    i = i + 1;
                }
                proof {
                    assert(data@.take(i as int) =~= data@);
                }
                Some(out)
            },
            LoadState::Loaded { data, .. } => {
                let needle = self.needle();
                let ghost rows = data@.map_values(|m: Market| market_view(m));
                let ghost pred = |v: (usize, MarketText)| market_shown(v.1, needle@);
                let mut out: Vec<Market> = Vec::new();
                let mut i: usize = 0;
                while i < data.len()
                    invariant
                        i <= data@.len(),
                        rows == data@.map_values(|m: Market| market_view(m)),
                        pred == (|v: (usize, MarketText)| market_shown(v.1, needle@)),
                        out@.map_values(|m: Market| market_view(m)) == rows.take(i as int).filter(
                            pred,
                        ),
                    decreases data@.len() - i,
                {
                    proof {
                        assert(rows.take(i + 1) =~= rows.take(i as int).push(rows[i as int]));
                        rows.take(i as int).lemma_filter_push(rows[i as int], pred);
                    }
                    if market_matches(&data[i], needle.as_slice()) {
                        let ghost before = out@;
                        out.push(copy_market(&data[i]));
                        proof {
                            assert(out@.map_values(|m: Market| market_view(m)) =~= before.map_values(
                                |m: Market| market_view(m),
                            ).push(rows[i as int]));
                        }
                    }
                    i = i + 1;
                }
                proof {
                    assert(rows.take(i as int) =~= rows);
                }
                Some(out)
            },
            _ => None,
        }
    }
}

/// Ctrl-C quits from every mode and asks nothing of the event loop.
pub proof fn lemma_ctrl_c_quits(a: AppView, c: KeyCode)
    requires
        c == KeyCode::Char('c'),
    ensures
        key_step(a, KeyEvent { code: c, ctrl: true }).0.should_quit,
        key_step(a, KeyEvent { code: c, ctrl: true }).1 == KeyOutcome::Nothing,
{
}

/// In NORMAL mode Esc first clears an active search (without quitting);
/// only an Esc with no search active quits.
pub proof fn lemma_esc_clears_search_before_quitting(a: AppView)
    requires
        a.mode == Mode::Normal,
        !a.pending_g,
        a.last_search.len() > 0,
    ensures
        ({
            let esc = KeyEvent { code: KeyCode::Esc, ctrl: false };
            let b = key_step(a, esc).0;
            &&& b.last_search.len() == 0
            &&& b.should_quit == a.should_quit
            &&& b.mode == Mode::Normal
            &&& key_step(b, esc).0.should_quit
        }),
{
    let esc = KeyEvent { code: KeyCode::Esc, ctrl: false };
    let a1 = AppView { pending_g: false, ..a };
    let (b0, out) = normal_move(a1, esc, list_len(a1, a1.tab));
    assert(b0.last_search =~= Seq::<char>::empty());
}

proof fn lemma_normal_move_keeps_selections_natural(a: AppView, k: KeyEvent, len: nat)
    requires
        a.leaderboard_sel >= 0,
        a.markets_sel >= 0,
        a.positions_sel >= 0,
    ensures
        normal_move(a, k, len).0.leaderboard_sel >= 0,
        normal_move(a, k, len).0.markets_sel >= 0,
        normal_move(a, k, len).0.positions_sel >= 0,
{
}

/// After any NORMAL-mode key that asks nothing of the event loop, the
/// current tab's selection lies inside its list whenever the list is not
/// empty (the Help tab has no list).
pub proof fn lemma_normal_key_keeps_selection_in_list(a: AppView, k: KeyEvent)
    requires
        a.mode == Mode::Normal,
        !(k.ctrl && k.code == KeyCode::Char('c')),
        a.leaderboard_sel >= 0,
        a.markets_sel >= 0,
        a.positions_sel >= 0,
    ensures
        ({
            let (b, out) = key_step(a, k);
            out == KeyOutcome::Nothing && b.tab != Tab::Help && list_len(b, b.tab) > 0 ==> 0
                <= selection_of(b) < list_len(b, b.tab)
        }),
{
    let a1 = AppView { pending_g: false, ..a };
    lemma_normal_move_keeps_selections_natural(a1, k, list_len(a1, a1.tab));
}

/// The net-worth history never grows past its cap, and the newest
/// snapshot is always last.
pub proof fn lemma_history_bounded(h: Seq<i64>, nw: i64)
    requires
        h.len() <= HISTORY_CAP,
    ensures
        history_after(h, nw).len() <= HISTORY_CAP,
        history_after(h, nw).last() == nw,
        h.len() < HISTORY_CAP ==> history_after(h, nw) == h.push(nw),
{
}

/// The rows the filtered leaderboard shows are exactly as many as the
/// rows the selection moves over.
pub proof fn lemma_filtered_rows_match_list_len(rows: Seq<LeaderRow>, needle: Seq<char>)
    ensures
        rows.map_values(|x: LeaderRow| leader_row_view(x)).filter(
            |v: LeaderRowView| leader_shown(v.username, needle),
        ).len() == rows.map_values(|r: LeaderRow| r.username@).filter(
            |u: Seq<char>| leader_shown(u, needle),
        ).len(),
    decreases rows.len(),
{
    let pv = |v: LeaderRowView| leader_shown(v.username, needle);
    let pu = |u: Seq<char>| leader_shown(u, needle);
    if rows.len() > 0 {
        let init = rows.drop_last();
        lemma_filtered_rows_match_list_len(init, needle);
        assert(rows.map_values(|x: LeaderRow| leader_row_view(x)) =~= init.map_values(
            |x: LeaderRow| leader_row_view(x),
        ).push(leader_row_view(rows.last())));
        assert(rows.map_values(|r: LeaderRow| r.username@) =~= init.map_values(
            |r: LeaderRow| r.username@,
        ).push(rows.last().username@));
        init.map_values(|x: LeaderRow| leader_row_view(x)).lemma_filter_push(
            leader_row_view(rows.last()),
            pv,
        );
        init.map_values(|r: LeaderRow| r.username@).lemma_filter_push(rows.last().username@, pu);
    } else {
        assert(rows.map_values(|x: LeaderRow| leader_row_view(x)).filter(pv) =~= Seq::empty()) by {
            reveal(Seq::filter);
        }
        assert(rows.map_values(|r: LeaderRow| r.username@).filter(pu) =~= Seq::empty()) by {
            reveal(Seq::filter);
        }
    }
}


/// A net-worth snapshot (cents) as the sparkline plots it: in whole
/// dollars, cents dropped, and losses below zero on the axis.
pub open spec fn whole_dollars(v: i64) -> int {
    if v < 0 { 0 } else { v as int / 100 }
}

/// The session's net-worth line, summarised for the sparkline panel.
pub struct SparkSummary {
    /// Lowest snapshot, in whole dollars (floored at zero).
    pub min: u64,
    /// Highest snapshot, in whole dollars (floored at zero).
    pub max: u64,
    /// Last minus first snapshot, in whole dollars.
    pub change: i64,
    /// Whether the line ended at or above where it started.
    pub rising: bool,
    /// The bar heights: each snapshot rebased to the minimum, plus one so a
    /// flat line still shows a baseline.
    pub bars: Vec<u64>,
}

/// The sparkline's figures for a history of snapshots (cents), each taken
/// in whole dollars; `None` while fewer than two snapshots exist.
pub fn spark_summary(history: &[i64]) -> (r: Option<SparkSummary>)
    ensures
        history@.len() < 2 ==> r is None,
        history@.len() >= 2 ==> (r matches Some(sp) && {
            let h = history@;
            let n = h.len() as int;
            &&& exists|i: int| 0 <= i < n && sp.min == whole_dollars(#[trigger] h[i])
            &&& forall|i: int| 0 <= i < n ==> sp.min <= whole_dollars(#[trigger] h[i])
            &&& exists|i: int| 0 <= i < n && sp.max == whole_dollars(#[trigger] h[i])
            &&& forall|i: int| 0 <= i < n ==> sp.max >= whole_dollars(#[trigger] h[i])
            &&& sp.change == whole_dollars(h[n - 1]) - whole_dollars(h[0])
            &&& sp.rising == (whole_dollars(h[n - 1]) >= whole_dollars(h[0]))
            &&& sp.bars@.len() == n
            &&& forall|i: int| 0 <= i < n ==> #[trigger] sp.bars@[i] == whole_dollars(h[i]) - sp.min + 1
        }),
{
    let n = history.len();
    if n < 2 {
        return None;
    }
    let mut vals: Vec<u64> = Vec::new();
    let mut i: usize = 0;
    while i < n
        invariant
            n == history@.len(),
            i <= n,
            vals@.len() == i,
            forall|j: int| 0 <= j < i ==> #[trigger] vals@[j] == whole_dollars(history@[j]),
            forall|j: int| 0 <= j < i ==> #[trigger] vals@[j] <= i64::MAX,
        decreases n - i,
    {
        let v = history[i];
        let c: u64 = if v < 0 { 0 } else { (v / 100) as u64 };
        vals.push(c);
        i = i + 1;
    }
    let mut lo: u64 = vals[0];
    let mut hi: u64 = vals[0];
    let ghost mut lo_at: int = 0;
    let ghost mut hi_at: int = 0;
    let mut k: usize = 1;
    while k < n
        invariant
            n == vals@.len(),
            1 <= k <= n,
            0 <= lo_at < k,
            0 <= hi_at < k,
            lo == vals@[lo_at],
            hi == vals@[hi_at],
            forall|j: int| 0 <= j < k ==> lo <= #[trigger] vals@[j] <= hi,
        decreases n - k,
    {
        if vals[k] < lo {
            lo = vals[k];
            proof {
                lo_at = k as int;
            }
        }
        if vals[k] > hi {
            hi = vals[k];
            proof {
                hi_at = k as int;
            }
        }
        k = k + 1;
    }
    let mut bars: Vec<u64> = Vec::new();
    let mut m: usize = 0;
    while m < n
        invariant
            n == vals@.len(),
            m <= n,
            bars@.len() == m,
            forall|j: int| 0 <= j < n ==> lo <= #[trigger] vals@[j] <= i64::MAX,
            forall|j: int| 0 <= j < m ==> #[trigger] bars@[j] == vals@[j] - lo + 1,
        decreases n - m,
    {
        bars.push(vals[m] - lo + 1);
        m = m + 1;
    }
    let first = vals[0];
    let last = vals[n - 1];
    let change: i64 = last as i64 - first as i64;
    proof {
        assert(vals@[lo_at] == whole_dollars(history@[lo_at]));
        assert(vals@[hi_at] == whole_dollars(history@[hi_at]));
        assert forall|j: int| 0 <= j < n implies lo <= whole_dollars(#[trigger] history@[j]) by {
            assert(vals@[j] == whole_dollars(history@[j]));
        }
        assert forall|j: int| 0 <= j < n implies hi >= whole_dollars(#[trigger] history@[j]) by {
            assert(vals@[j] == whole_dollars(history@[j]));
        }
        assert forall|j: int| 0 <= j < n implies #[trigger] bars@[j] == whole_dollars(history@[j]) - lo + 1 by {
            assert(vals@[j] == whole_dollars(history@[j]));
        }
        assert(vals@[0] == whole_dollars(history@[0]));
        assert(vals@[n - 1] == whole_dollars(history@[n - 1]));
    }
    Some(SparkSummary { min: lo, max: hi, change, rising: last >= first, bars })
}


/// Ctrl-d moves half a page (ten rows) down and never up: from row `cur`
/// of a list of `n` rows the selection lands on `cur + 10`, or on the last
/// row when fewer than ten rows remain.
pub proof fn lemma_ctrl_d_half_page_down(a: AppView)
    requires
        a.mode == Mode::Normal,
        !a.pending_g,
        a.tab != Tab::Help,
        list_len(a, a.tab) > 0,
        0 <= selection_of(a) < list_len(a, a.tab),
    ensures
        ({
            let n = list_len(a, a.tab) as int;
            let cur = selection_of(a);
            let (b, out) = key_step(a, KeyEvent { code: KeyCode::Char('d'), ctrl: true });
            &&& out == KeyOutcome::Nothing
            &&& b.tab == a.tab
            &&& selection_of(b) == (if cur + 10 <= n - 1 { cur + 10 } else { n - 1 })
            &&& selection_of(b) >= cur
            &&& (cur < n - 1 ==> selection_of(b) > cur)
        }),
{
}

/// Ctrl-u moves half a page (ten rows) up and never down, stopping at the
/// first row.
pub proof fn lemma_ctrl_u_half_page_up(a: AppView)
    requires
        a.mode == Mode::Normal,
        !a.pending_g,
        a.tab != Tab::Help,
        list_len(a, a.tab) > 0,
        0 <= selection_of(a) < list_len(a, a.tab),
    ensures
        ({
            let cur = selection_of(a);
            let (b, out) = key_step(a, KeyEvent { code: KeyCode::Char('u'), ctrl: true });
            &&& out == KeyOutcome::Nothing
            &&& b.tab == a.tab
            &&& selection_of(b) == (if cur >= 10 { cur - 10 } else { 0 })
            &&& selection_of(b) <= cur
        }),
{
}

/// A username matches a search wherever the (lowercased) needle occurs in
/// the lowercased name, not only at its start: if the name is some text,
/// then the needle, then more text, the row is shown.
pub proof fn lemma_search_matches_anywhere(
    u: Seq<char>,
    needle: Seq<char>,
    before: Seq<char>,
    after: Seq<char>,
)
    requires
        lowercase(u) == before + needle + after,
    ensures
        leader_shown(u, needle),
{
    let hay = lowercase(u);
    let i = before.len() as int;
    assert(hay.subrange(i, i + needle.len()) =~= needle);
    assert(infix_at(hay, needle, i));
}

/// And only then: a shown username holds the needle somewhere.
pub proof fn lemma_search_match_is_infix(u: Seq<char>, needle: Seq<char>)
    requires
        leader_shown(u, needle),
    ensures
        exists|before: Seq<char>, after: Seq<char>| lowercase(u) == before + needle + after,
{
    let hay = lowercase(u);
    let i = choose|i: int| 0 <= i && i + needle.len() <= hay.len() && #[trigger] infix_at(hay, needle, i);
    let before = hay.take(i);
    let after = hay.skip(i + needle.len());
    assert(hay =~= before + needle + after);
}

/// Under an active search, the filtered leaderboard keeps every row whose
/// lowercased username holds the lowercased search anywhere.
pub proof fn lemma_filtered_keeps_infix_rows(
    rows: Seq<LeaderRowView>,
    search: Seq<char>,
    j: int,
    before: Seq<char>,
    after: Seq<char>,
)
    requires
        0 <= j < rows.len(),
        lowercase(rows[j].username) == before + lowercase(search) + after,
    ensures
        rows.filter(|v: LeaderRowView| leader_shown(v.username, lowercase(search))).contains(rows[j]),
{
    lemma_search_matches_anywhere(rows[j].username, lowercase(search), before, after);
    rows.lemma_filter_contains_rev(|v: LeaderRowView| leader_shown(v.username, lowercase(search)), rows[j]);
}

/// A market matches when the needle occurs anywhere in its lowercased
/// question or category; a shown market holds it in one of the two.
pub proof fn lemma_market_search_anywhere(m: MarketText, needle: Seq<char>, before: Seq<char>, after: Seq<char>)
    ensures
        lowercase(m.question) == before + needle + after ==> market_shown(m, needle),
        (m.category matches Some(c) && lowercase(c) == before + needle + after) ==> market_shown(m, needle),
        market_shown(m, needle) ==> (exists|b: Seq<char>, e: Seq<char>| lowercase(m.question) == b + needle + e)
            || (m.category matches Some(c) && exists|b: Seq<char>, e: Seq<char>| lowercase(c) == b + needle + e),
{
    if lowercase(m.question) == before + needle + after {
        lemma_search_matches_anywhere(m.question, needle, before, after);
    }
    if m.category matches Some(c) && lowercase(c) == before + needle + after {
        lemma_search_matches_anywhere(m.category->Some_0, needle, before, after);
    }
    if has_infix(lowercase(m.question), needle) {
        lemma_search_match_is_infix(m.question, needle);
    } else if m.category matches Some(c) && has_infix(lowercase(c), needle) {
        lemma_search_match_is_infix(m.category->Some_0, needle);
    }
}


/// Row-by-row and jump navigation in NORMAL mode: `j` goes one row down
/// and `k` one row up (staying put at the ends), `G` jumps to the last
/// row, `gg` to the first, and `n` steps to the next row, wrapping from
/// the last to the first, while a search is active.
pub proof fn lemma_row_navigation(a: AppView)
    requires
        a.mode == Mode::Normal,
        !a.pending_g,
        a.tab != Tab::Help,
        list_len(a, a.tab) > 0,
        0 <= selection_of(a) < list_len(a, a.tab),
    ensures
        ({
            let n = list_len(a, a.tab) as int;
            let cur = selection_of(a);
            let key = |c: char| KeyEvent { code: KeyCode::Char(c), ctrl: false };
            let g1 = key_step(a, key('g')).0;
            &&& selection_of(key_step(a, key('j')).0) == (if cur < n - 1 { cur + 1 } else { cur })
            &&& selection_of(key_step(a, key('k')).0) == (if cur > 0 { cur - 1 } else { cur })
            &&& selection_of(key_step(a, key('G')).0) == n - 1
            &&& selection_of(key_step(g1, key('g')).0) == 0
            &&& (a.last_search.len() > 0 ==> selection_of(key_step(a, key('n')).0) == (if cur
                == n - 1 { 0 } else { cur + 1 }))
            &&& key_step(a, key('j')).0.tab == a.tab
            &&& key_step(a, key('k')).0.tab == a.tab
        }),
{
    let key = |c: char| KeyEvent { code: KeyCode::Char(c), ctrl: false };
    let g1 = key_step(a, key('g')).0;
    assert(g1.pending_g);
    assert(g1.tab == a.tab);
}

} // verus!
