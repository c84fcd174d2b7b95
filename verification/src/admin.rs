//! The club admin console: issue keys, manage the roster, watch the
//! leaderboard. The console decides; the caller performs what a decision
//! asks for (a network call, the roster database, the clipboard) and hands
//! the outcome back.
//!
//! Destructive actions (resetting balances, removing a member) are staged
//! and only run after a `y` confirmation.

use vstd::prelude::*;
use crate::text::{dec, text_is, pop_char, push_char, push_dec, push_str, to_chars, trim_chars, trim_text};
use crate::site::board::{leader_views, select_leaders, string_views, with_worth, worth_desc,
    Leader, LeaderView};
use crate::tui::{KeyCode, KeyEvent};

verus! {

/// One club member with their paper keys.
#[derive(Debug, Clone, PartialEq, Eq)]
pub struct Student {
    pub username: String,
    pub display_name: String,
    pub poly_key: String,
    pub kalshi_key: String,
    /// Access role granted on the sims: "member", "admin", or "owner".
    pub role: String,
    pub created_at: String,
}

/// Credentials minted by the last successful issuance, kept on screen.
#[derive(Debug, Clone)]
pub struct Issued {
    pub username: String,
    pub role: String,
    pub poly_key: String,
}

/// The console's three tabs (views).
#[derive(Debug, Clone, Copy, PartialEq, Eq, Structural)]
pub enum Screen {
    Issue,
    Roster,
    Leaderboard,
}

/// Tab order forward (l / Tab).
pub open spec fn next_view_of(v: Screen) -> Screen {
    match v {
        Screen::Issue => Screen::Roster,
        Screen::Roster => Screen::Leaderboard,
        Screen::Leaderboard => Screen::Issue,
    }
}

/// Tab order backward (h / Shift+Tab).
pub open spec fn prev_view_of(v: Screen) -> Screen {
    match v {
        Screen::Issue => Screen::Leaderboard,
        Screen::Roster => Screen::Issue,
        Screen::Leaderboard => Screen::Roster,
    }
}

pub fn next_view(v: Screen) -> (r: Screen)
    ensures
        r == next_view_of(v),
{
    match v {
        Screen::Issue => Screen::Roster,
        Screen::Roster => Screen::Leaderboard,
        Screen::Leaderboard => Screen::Issue,
    }
}

pub fn prev_view(v: Screen) -> (r: Screen)
    ensures
        r == prev_view_of(v),
{
    match v {
        Screen::Issue => Screen::Leaderboard,
        Screen::Roster => Screen::Issue,
        Screen::Leaderboard => Screen::Roster,
    }
}

/// Going forward then back (or back then forward) returns to the same
/// tab, and three steps forward go all the way round.
pub proof fn lemma_view_cycle(v: Screen)
    ensures
        prev_view_of(next_view_of(v)) == v,
        next_view_of(prev_view_of(v)) == v,
        next_view_of(next_view_of(next_view_of(v))) == v,
{
}

/// Roles the owner can grant, lowest to highest.
pub open spec fn role_name(i: int) -> Seq<char> {
    if i == 0 {
        "member"@
    } else if i == 1 {
        "admin"@
    } else {
        "owner"@
    }
}

/// One-line summary of what a role can do.
pub open spec fn role_blurb_text(role: Seq<char>) -> Seq<char> {
    if role == "admin"@ {
        "issue/revoke keys & reset balances — e.g. the VP"@
    } else if role == "owner"@ {
        "full control, incl. resolving markets & granting roles"@
    } else {
        "trades & views only their own account (the default)"@
    }
}

/// One-line plain-English summary of what a role can do, shown under the
/// picker.
pub fn role_blurb(role: &str) -> (r: &'static str)
    ensures
        r@ == role_blurb_text(role@),
{
    let rc = to_chars(role);
    if text_is(rc.as_slice(), "admin") {
        "issue/revoke keys & reset balances — e.g. the VP"
    } else if text_is(rc.as_slice(), "owner") {
        "full control, incl. resolving markets & granting roles"
    } else {
        "trades & views only their own account (the default)"
    }
}

/// The copy-pasteable credentials block handed to a member.
pub open spec fn creds_text(username: Seq<char>, role: Seq<char>, poly_key: Seq<char>, base_url: Seq<
    char,
>) -> Seq<char> {
    "PredLab credentials for "@ + username + " (role: "@ + role + ")\n\nbase URL: "@ + base_url
        + "\n  API key:  "@ + poly_key
        + "\n→ send the key as the POLY_API_KEY header\n\nQuick start: examples/predlab.py (set POLY_KEY and trade).\n"@
}

/// A copy-pasteable credentials block to hand to a member (e.g. via DM),
/// naming the simulator at `base_url`.
pub fn creds_block(username: &str, role: &str, poly_key: &str, base_url: &str) -> (r: String)
    ensures
        r@ == creds_text(username@, role@, poly_key@, base_url@),
{
    let mut out = String::new();
    push_str(&mut out, "PredLab credentials for ");
    push_str(&mut out, username);
    push_str(&mut out, " (role: ");
    push_str(&mut out, role);
    push_str(&mut out, ")\n\nbase URL: ");
    push_str(&mut out, base_url);
    push_str(&mut out, "\n  API key:  ");
    push_str(&mut out, poly_key);
    push_str(
        &mut out,
        "\n→ send the key as the POLY_API_KEY header\n\nQuick start: examples/predlab.py (set POLY_KEY and trade).\n",
    );
    proof {
        assert(out@ =~= creds_text(username@, role@, poly_key@, base_url@));
    }
    out
}

/// A destructive action awaiting a `y` confirmation.
#[derive(Debug, Clone, PartialEq, Eq)]
pub enum Pending {
    Nothing,
    ResetMember(String),
    ResetAll,
    RemoveMember(String),
}

/// The plain value of a [`Pending`].
pub enum PendingView {
    Nothing,
    ResetMember(Seq<char>),
    ResetAll,
    RemoveMember(Seq<char>),
}

/// The plain value of a [`Pending`].
pub open spec fn pending_view(p: Pending) -> PendingView {
    match p {
        Pending::Nothing => PendingView::Nothing,
        Pending::ResetMember(u) => PendingView::ResetMember(u@),
        Pending::ResetAll => PendingView::ResetAll,
        Pending::RemoveMember(u) => PendingView::RemoveMember(u@),
    }
}

/// What a key asks the caller to do.
#[derive(Debug)]
pub enum AdminAction {
    /// Nothing beyond the state change.
    Nothing,
    /// Run this confirmed destructive action.
    Confirm(Pending),
    /// Fetch the leaderboard (the caller then reports the result).
    RefreshLeaderboard,
    /// Issue a key for the typed username (see [`AdminApp::begin_issue`]).
    Issue,
    /// Copy the selected member's credentials (see [`AdminApp::copy_target`]).
    CopyCredentials,
}

/// The plain value of an [`AdminAction`].
pub enum ActionView {
    Nothing,
    Confirm(PendingView),
    RefreshLeaderboard,
    Issue,
    CopyCredentials,
}

/// The plain value of an [`AdminAction`].
pub open spec fn action_view(a: AdminAction) -> ActionView {
    match a {
        AdminAction::Nothing => ActionView::Nothing,
        AdminAction::Confirm(p) => ActionView::Confirm(pending_view(p)),
        AdminAction::RefreshLeaderboard => ActionView::RefreshLeaderboard,
        AdminAction::Issue => ActionView::Issue,
        AdminAction::CopyCredentials => ActionView::CopyCredentials,
    }
}

/// The console state.
pub struct AdminApp {
    pub view: Screen,
    pub username: String,
    pub role_idx: usize,
    pub message: String,
    pub students: Vec<Student>,
    pub roster_sel: usize,
    pub last: Option<Issued>,
    pub leaders: Vec<Leader>,
    pub pending: Pending,
    pub should_quit: bool,
}

/// What key handling reads and writes of the console.
#[verifier::ext_equal]
pub struct AdminView {
    pub view: Screen,
    pub username: Seq<char>,
    pub role_idx: int,
    pub message: Seq<char>,
    /// Usernames on the roster, in order.
    pub names: Seq<Seq<char>>,
    pub roster_sel: int,
    pub pending: PendingView,
    pub should_quit: bool,
}

impl View for AdminApp {
    type V = AdminView;

    open spec fn view(&self) -> AdminView {
        AdminView {
            view: self.view,
            username: self.username@,
            role_idx: self.role_idx as int,
            message: self.message@,
            names: self.students@.map_values(|s: Student| s.username@),
            roster_sel: self.roster_sel as int,
            pending: pending_view(self.pending),
            should_quit: self.should_quit,
        }
    }
}

/// Whether `c` may appear in a username: ASCII letters, digits, `_`.
pub open spec fn username_char(c: char) -> bool {
    let x = c as int;
    (48 <= x <= 57) || (65 <= x <= 90) || (97 <= x <= 122) || x == 95
}

/// `a` on `target`, with the roster selection kept inside the roster; the
/// leaderboard refreshes whenever it becomes visible.
pub open spec fn switch_step(a: AdminView, target: Screen) -> (AdminView, ActionView) {
    let n = a.names.len();
    let sel = if a.roster_sel >= n {
        if n == 0 {
            0
        } else {
            n - 1
        }
    } else {
        a.roster_sel
    };
    (
        AdminView { view: target, roster_sel: sel, ..a },
        if target == Screen::Leaderboard {
            ActionView::RefreshLeaderboard
        } else {
            ActionView::Nothing
        },
    )
}

/// The message staging a single-member reset.
pub open spec fn reset_prompt(u: Seq<char>) -> Seq<char> {
    "⚠ Reset "@ + u + " to the starting balance? Press y to confirm."@
}

/// The message staging a removal.
pub open spec fn remove_prompt(u: Seq<char>) -> Seq<char> {
    "⚠ PERMANENTLY remove "@ + u + " from the sim and roster? Press y to confirm."@
}

/// A key in the Issue view: type the username, pick a role, or issue.
pub open spec fn issue_key_step(a: AdminView, c: KeyCode) -> (AdminView, ActionView) {
    match c {
        KeyCode::Enter => (a, ActionView::Issue),
        KeyCode::Left | KeyCode::Up => (
            AdminView { role_idx: (a.role_idx + 2) % 3, ..a },
            ActionView::Nothing,
        ),
        KeyCode::Right | KeyCode::Down => (
            AdminView { role_idx: (a.role_idx + 1) % 3, ..a },
            ActionView::Nothing,
        ),
        KeyCode::Backspace => (
            AdminView {
                username: if a.username.len() > 0 {
                    a.username.drop_last()
                } else {
                    a.username
                },
                ..a
            },
            ActionView::Nothing,
        ),
        KeyCode::Char(ch) => if username_char(ch) {
            (AdminView { username: a.username.push(ch), ..a }, ActionView::Nothing)
        } else {
            (a, ActionView::Nothing)
        },
        _ => (a, ActionView::Nothing),
    }
}

/// A key in the Roster view: move, copy, or stage a destructive action.
pub open spec fn roster_key_step(a: AdminView, c: KeyCode) -> (AdminView, ActionView) {
    let n = a.names.len();
    let sel = a.roster_sel;
    if c == KeyCode::Char('q') {
        (AdminView { should_quit: true, ..a }, ActionView::Nothing)
    } else if c == KeyCode::Up || c == KeyCode::Char('k') {
        (AdminView { roster_sel: if sel > 0 { sel - 1 } else { 0 }, ..a }, ActionView::Nothing)
    } else if c == KeyCode::Down || c == KeyCode::Char('j') {
        (AdminView { roster_sel: if sel + 1 < n { sel + 1 } else { sel }, ..a }, ActionView::Nothing)
    } else if c == KeyCode::Char('c') {
        (a, ActionView::CopyCredentials)
    } else if c == KeyCode::Char('r') {
        if 0 <= sel < n {
            (
                AdminView {
                    message: reset_prompt(a.names[sel]),
                    pending: PendingView::ResetMember(a.names[sel]),
                    ..a
                },
                ActionView::Nothing,
            )
        } else {
            (AdminView { message: "Roster is empty — nothing to reset."@, ..a }, ActionView::Nothing)
        }
    } else if c == KeyCode::Char('R') {
        (
            AdminView {
                message: "⚠ Reset ALL members to the starting balance? Press y to confirm."@,
                pending: PendingView::ResetAll,
                ..a
            },
            ActionView::Nothing,
        )
    } else if c == KeyCode::Char('x') || c == KeyCode::Delete {
        if 0 <= sel < n {
            (
                AdminView {
                    message: remove_prompt(a.names[sel]),
                    pending: PendingView::RemoveMember(a.names[sel]),
                    ..a
                },
                ActionView::Nothing,
            )
        } else {
            (AdminView { message: "Roster is empty — nothing to remove."@, ..a }, ActionView::Nothing)
        }
    } else {
        (a, ActionView::Nothing)
    }
}

/// A key in the Leaderboard view.
pub open spec fn leaderboard_key_step(a: AdminView, c: KeyCode) -> (AdminView, ActionView) {
    if c == KeyCode::Char('q') {
        (AdminView { should_quit: true, ..a }, ActionView::Nothing)
    } else if c == KeyCode::Char('r') {
        (a, ActionView::RefreshLeaderboard)
    } else {
        (a, ActionView::Nothing)
    }
}

/// Any key. A staged action runs only on `y`/`Y`; any other key cancels
/// it. Otherwise Esc and Ctrl-C quit, Tab/Shift-Tab (and l/h outside the
/// Issue view) switch tabs, and the view handles the rest.
pub open spec fn admin_step(a: AdminView, k: KeyEvent) -> (AdminView, ActionView) {
    let c = k.code;
    if !(a.pending is Nothing) {
        let b = AdminView { pending: PendingView::Nothing, ..a };
        if c == KeyCode::Char('y') || c == KeyCode::Char('Y') {
            (b, ActionView::Confirm(a.pending))
        } else {
            (AdminView { message: "Cancelled."@, ..b }, ActionView::Nothing)
        }
    } else if c == KeyCode::Esc || (c == KeyCode::Char('c') && k.ctrl) {
        (AdminView { should_quit: true, ..a }, ActionView::Nothing)
    } else if c == KeyCode::Tab || (c == KeyCode::Char('l') && a.view != Screen::Issue) {
        switch_step(a, next_view_of(a.view))
    } else if c == KeyCode::BackTab || (c == KeyCode::Char('h') && a.view != Screen::Issue) {
        switch_step(a, prev_view_of(a.view))
    } else {
        match a.view {
            Screen::Issue => issue_key_step(a, c),
            Screen::Roster => roster_key_step(a, c),
            Screen::Leaderboard => leaderboard_key_step(a, c),
        }
    }
}

fn copy_pending(p: &Pending) -> (r: Pending)
    ensures
        pending_view(r) == pending_view(*p),
{
    match p {
        Pending::Nothing => Pending::Nothing,
        Pending::ResetMember(u) => Pending::ResetMember(u.clone()),
        Pending::ResetAll => Pending::ResetAll,
        Pending::RemoveMember(u) => Pending::RemoveMember(u.clone()),
    }
}

fn is_username_char(c: char) -> (r: bool)
    ensures
        r == username_char(c),
{
    ('0' <= c && c <= '9') || ('A' <= c && c <= 'Z') || ('a' <= c && c <= 'z') || c == '_'
}

impl AdminApp {
    /// The console's well-formedness: the role picker points at a role.
    pub open spec fn wf(&self) -> bool {
        self.role_idx < 3
    }

    /// A fresh console on the Issue tab over the saved roster.
    pub fn new(students: Vec<Student>) -> (app: AdminApp)
        ensures
            app.wf(),
            app.view == Screen::Issue,
            app.username@ == Seq::<char>::empty(),
            app.role_idx == 0,
            app.message@ == "Type a username, pick a role with ←/→, then press Enter."@,
            app.students == students,
            app.roster_sel == 0,
            app.last is None,
            app.leaders@.len() == 0,
            app.pending == Pending::Nothing,
            !app.should_quit,
    {
        AdminApp {
            view: Screen::Issue,
            username: String::new(),
            role_idx: 0,
            message: String::from_str("Type a username, pick a role with ←/→, then press Enter."),
            students,
            roster_sel: 0,
            last: None,
            leaders: Vec::new(),
            pending: Pending::Nothing,
            should_quit: false,
        }
    }

    /// The role currently picked.
    pub fn role(&self) -> (r: &'static str)
        requires
            self.wf(),
        ensures
            r@ == role_name(self.role_idx as int),
    {
        if self.role_idx == 0 {
            "member"
        } else if self.role_idx == 1 {
            "admin"
        } else {
            "owner"
        }
    }

    /// Keep the roster selection inside the roster.
    fn clamp_selection(&mut self)
        ensures
            final(self)@ == (AdminView {
                roster_sel: if old(self).roster_sel >= old(self).students@.len() {
                    if old(self).students@.len() == 0 {
                        0
                    } else {
                        old(self).students@.len() - 1
                    }
                } else {
                    old(self).roster_sel as int
                },
                ..old(self)@
            }),
            final(self).students == old(self).students,
            final(self).last == old(self).last,
            final(self).leaders == old(self).leaders,
            final(self).role_idx == old(self).role_idx,
            final(self).view == old(self).view,
            final(self).message == old(self).message,
            final(self).username == old(self).username,
            final(self).pending == old(self).pending,
            final(self).should_quit == old(self).should_quit,
    {
        if self.roster_sel >= self.students.len() {
            self.roster_sel = if self.students.len() == 0 { 0 } else { self.students.len() - 1 };
        }
    }

    /// Handle one key press; the returned action tells the caller what
    /// outside work the key asks for.
    pub fn handle_key(&mut self, key: KeyEvent) -> (act: AdminAction)
        requires
            old(self).wf(),
        ensures
            final(self).wf(),
            final(self)@ == admin_step(old(self)@, key).0,
            action_view(act) == admin_step(old(self)@, key).1,
            final(self).students == old(self).students,
            final(self).last == old(self).last,
            final(self).leaders == old(self).leaders,
    {
        let c = key.code;
        let staged = match &self.pending {
            Pending::Nothing => false,
            _ => true,
        };
        if staged {
            let p = copy_pending(&self.pending);
            self.pending = Pending::Nothing;
            if c == KeyCode::Char('y') || c == KeyCode::Char('Y') {
                return AdminAction::Confirm(p);
            } else {
                self.message = String::from_str("Cancelled.");
                return AdminAction::Nothing;
            }
        }
        if c == KeyCode::Esc || (c == KeyCode::Char('c') && key.ctrl) {
            self.should_quit = true;
            return AdminAction::Nothing;
        }
        if c == KeyCode::Tab || (c == KeyCode::Char('l') && self.view != Screen::Issue) {
            return self.switch_view(next_view(self.view));
        }
        if c == KeyCode::BackTab || (c == KeyCode::Char('h') && self.view != Screen::Issue) {
            return self.switch_view(prev_view(self.view));
        }
        match self.view {
            Screen::Issue => self.handle_issue_key(c),
            Screen::Roster => self.handle_roster_key(c),
            Screen::Leaderboard => {
                if c == KeyCode::Char('q') {
                    self.should_quit = true;
                    AdminAction::Nothing
                } else if c == KeyCode::Char('r') {
                    AdminAction::RefreshLeaderboard
                } else {
                    AdminAction::Nothing
                }
            },
        }
    }

    fn switch_view(&mut self, target: Screen) -> (act: AdminAction)
        requires
            old(self).wf(),
        ensures
            final(self).wf(),
            final(self)@ == switch_step(old(self)@, target).0,
            action_view(act) == switch_step(old(self)@, target).1,
            final(self).students == old(self).students,
            final(self).last == old(self).last,
            final(self).leaders == old(self).leaders,
    {
        self.view = target;
        self.clamp_selection();
        if self.view == Screen::Leaderboard {
            AdminAction::RefreshLeaderboard
        } else {
            AdminAction::Nothing
        }
    }

    fn handle_issue_key(&mut self, c: KeyCode) -> (act: AdminAction)
        requires
            old(self).wf(),
        ensures
            final(self).wf(),
            final(self)@ == issue_key_step(old(self)@, c).0,
            action_view(act) == issue_key_step(old(self)@, c).1,
            final(self).students == old(self).students,
            final(self).last == old(self).last,
            final(self).leaders == old(self).leaders,
    {
        match c {
            KeyCode::Enter => {
                return AdminAction::Issue;
            },
            KeyCode::Left | KeyCode::Up => {
                self.role_idx = (self.role_idx + 2) % 3;
            },
            KeyCode::Right | KeyCode::Down => {
                self.role_idx = (self.role_idx + 1) % 3;
            },
            KeyCode::Backspace => {
                pop_char(&mut self.username);
            },
            KeyCode::Char(ch) => {
                if is_username_char(ch) {
                    push_char(&mut self.username, ch);
                }
            },
            _ => {},
        }
        AdminAction::Nothing
    }

    fn handle_roster_key(&mut self, c: KeyCode) -> (act: AdminAction)
        requires
            old(self).wf(),
        ensures
            final(self).wf(),
            final(self)@ == roster_key_step(old(self)@, c).0,
            action_view(act) == roster_key_step(old(self)@, c).1,
            final(self).students == old(self).students,
            final(self).last == old(self).last,
            final(self).leaders == old(self).leaders,
    {
        let n = self.students.len();
        let ghost names = self@.names;
        if c == KeyCode::Char('q') {
            self.should_quit = true;
        } else if c == KeyCode::Up || c == KeyCode::Char('k') {
            self.roster_sel = if self.roster_sel > 0 { self.roster_sel - 1 } else { 0 };
        } else if c == KeyCode::Down || c == KeyCode::Char('j') {
            if self.roster_sel < n && n - self.roster_sel > 1 {
                self.roster_sel = self.roster_sel + 1;
            }
        } else if c == KeyCode::Char('c') {
            return AdminAction::CopyCredentials;
        } else if c == KeyCode::Char('r') {
            if self.roster_sel < n {
                let u = self.students[self.roster_sel].username.clone();
                let mut m = String::from_str("⚠ Reset ");
                push_str(&mut m, u.as_str());
                push_str(&mut m, " to the starting balance? Press y to confirm.");
                proof {
                    assert(m@ =~= reset_prompt(names[self.roster_sel as int]));
                }
                self.message = m;
                self.pending = Pending::ResetMember(u);
            } else {
                self.message = String::from_str("Roster is empty — nothing to reset.");
            }
        } else if c == KeyCode::Char('R') {
            self.message = String::from_str(
                "⚠ Reset ALL members to the starting balance? Press y to confirm.",
            );
            self.pending = Pending::ResetAll;
        } else if c == KeyCode::Char('x') || c == KeyCode::Delete {
            if self.roster_sel < n {
                let u = self.students[self.roster_sel].username.clone();
                let mut m = String::from_str("⚠ PERMANENTLY remove ");
                push_str(&mut m, u.as_str());
                push_str(&mut m, " from the sim and roster? Press y to confirm.");
                proof {
                    assert(m@ =~= remove_prompt(names[self.roster_sel as int]));
                }
                self.message = m;
                self.pending = Pending::RemoveMember(u);
            } else {
                self.message = String::from_str("Roster is empty — nothing to remove.");
            }
        }
        AdminAction::Nothing
    }

    /// The leaderboard is being fetched.
    pub fn refresh_started(&mut self)
        ensures
            final(self)@ == (AdminView { message: "Loading leaderboard…"@, ..old(self)@ }),
            final(self).role_idx == old(self).role_idx,
            final(self).students == old(self).students,
            final(self).last == old(self).last,
            final(self).leaders == old(self).leaders,
    {
        self.message = String::from_str("Loading leaderboard…");
    }

    /// A leaderboard fetch finished: on success the rows are shown ranked
    /// by net worth (highest first, ties in fetched order); on failure the
    /// error is shown and the old rows stay.
    pub fn leaderboard_loaded(&mut self, res: Result<Vec<Leader>, String>)
        ensures
            final(self).role_idx == old(self).role_idx,
            final(self).students == old(self).students,
            final(self).last == old(self).last,
            match res {
                Ok(rows) => {
                    &&& final(self)@ == (AdminView {
                        message: dec(rows@.len()) + " members ranked by net worth. Press r to refresh."@,
                        ..old(self)@
                    })
                    &&& worth_desc(leader_views(final(self).leaders@))
                    &&& forall|v: int| #[trigger]
                        with_worth(leader_views(final(self).leaders@), v) == with_worth(
                            leader_views(rows@),
                            v,
                        )
                },
                Err(e) => {
                    &&& final(self)@ == (AdminView { message: "❌ "@ + e@, ..old(self)@ })
                    &&& final(self).leaders == old(self).leaders
                },
            },
    {
        match res {
            Ok(rows) => {
                let none: Vec<String> = Vec::new();
                let ranked = select_leaders(rows.as_slice(), none.as_slice());
                proof {
                    let ex = string_views(none@);
                    assert(ex =~= Seq::<Seq<char>>::empty());
                    let rv = leader_views(rows@);
                    let keep = |l: LeaderView| !ex.contains(l.username);
                    assert forall|j: int| 0 <= j < rv.len() implies #[trigger] keep(rv[j]) by {
                    }
                    lemma_filter_all(rv, keep);
                }
                let mut m = String::new();
                push_dec(&mut m, rows.len() as u128);
                push_str(&mut m, " members ranked by net worth. Press r to refresh.");
                self.message = m;
                self.leaders = ranked;
            },
            Err(e) => {
                let mut m = String::from_str("❌ ");
                push_str(&mut m, e.as_str());
                self.message = m;
            },
        }
    }

    /// A confirmed action is about to run: say what is happening.
    pub fn confirm_started(&mut self, p: &Pending)
        ensures
            final(self)@ == (AdminView {
                message: match pending_view(*p) {
                    PendingView::ResetMember(u) => "Resetting "@ + u + "…"@,
                    PendingView::ResetAll => "Resetting all members…"@,
                    PendingView::RemoveMember(u) => "Removing "@ + u + "…"@,
                    PendingView::Nothing => old(self).message@,
                },
                ..old(self)@
            }),
            final(self).role_idx == old(self).role_idx,
            final(self).students == old(self).students,
            final(self).last == old(self).last,
            final(self).leaders == old(self).leaders,
    {
        match p {
            Pending::ResetMember(u) => {
                let mut m = String::from_str("Resetting ");
                push_str(&mut m, u.as_str());
                push_str(&mut m, "…");
                self.message = m;
            },
            Pending::ResetAll => {
                self.message = String::from_str("Resetting all members…");
            },
            Pending::RemoveMember(u) => {
                let mut m = String::from_str("Removing ");
                push_str(&mut m, u.as_str());
                push_str(&mut m, "…");
                self.message = m;
            },
            Pending::Nothing => {},
        }
    }

    /// A confirmed action finished with the simulator's answer.
    pub fn confirm_finished(&mut self, res: Result<String, String>)
        ensures
            final(self)@ == (AdminView {
                message: match res {
                    Ok(m) => m@,
                    Err(e) => "❌ "@ + e@,
                },
                ..old(self)@
            }),
            final(self).role_idx == old(self).role_idx,
            final(self).students == old(self).students,
            final(self).last == old(self).last,
            final(self).leaders == old(self).leaders,
    {
        match res {
            Ok(m) => {
                self.message = m;
            },
            Err(e) => {
                let mut m = String::from_str("❌ ");
                push_str(&mut m, e.as_str());
                self.message = m;
            },
        }
    }

    /// The roster was re-read (after a removal or an issuance); the
    /// selection stays inside it.
    pub fn roster_reloaded(&mut self, students: Vec<Student>)
        ensures
            final(self).students == students,
            final(self).role_idx == old(self).role_idx,
            final(self).last == old(self).last,
            final(self).leaders == old(self).leaders,
            final(self).view == old(self).view,
            final(self).message == old(self).message,
            final(self).username == old(self).username,
            final(self).pending == old(self).pending,
            final(self).should_quit == old(self).should_quit,
            final(self).roster_sel == (if old(self).roster_sel >= students@.len() {
                if students@.len() == 0 {
                    0
                } else {
                    students@.len() - 1
                }
            } else {
                old(self).roster_sel as int
            }),
    {
        self.students = students;
        self.clamp_selection();
    }

    /// Enter in the Issue view: the trimmed username and the picked role
    /// to issue a key for, or `None` (with a prompt) when no name is typed.
    pub fn begin_issue(&mut self) -> (r: Option<(String, String)>)
        requires
            old(self).wf(),
        ensures
            final(self).wf(),
            final(self).role_idx == old(self).role_idx,
            final(self).students == old(self).students,
            final(self).last == old(self).last,
            final(self).leaders == old(self).leaders,
            trim_text(old(self).username@).len() == 0 ==> r is None && final(self)@ == (AdminView {
                message: "Enter a username first."@,
                ..old(self)@
            }),
            trim_text(old(self).username@).len() > 0 ==> r is Some && r.unwrap().0@ == trim_text(
                old(self).username@,
            ) && r.unwrap().1@ == role_name(old(self).role_idx as int) && final(self)@ == (
            AdminView {
                message: "Issuing a "@ + role_name(old(self).role_idx as int) + " key for '"@
                    + trim_text(old(self).username@) + "'…"@,
                ..old(self)@
            }),
    {
        let name_chars = trim_chars(to_chars(self.username.as_str()).as_slice());
        if name_chars.len() == 0 {
            self.message = String::from_str("Enter a username first.");
            return None;
        }
        let mut username = String::new();
        crate::text::push_chars(&mut username, name_chars.as_slice());
        let role = String::from_str(self.role());
        let mut m = String::from_str("Issuing a ");
        push_str(&mut m, role.as_str());
        push_str(&mut m, " key for '");
        push_str(&mut m, username.as_str());
        push_str(&mut m, "'…");
        self.message = m;
        Some((username, role))
    }

    /// The key was issued and saved; `students` is the re-read roster and
    /// `copied` says whether the credentials reached the clipboard.
    pub fn issue_saved(
        &mut self,
        username: String,
        role: String,
        poly_key: String,
        students: Vec<Student>,
        copied: bool,
    )
        ensures
            final(self).students == students,
            final(self).role_idx == old(self).role_idx,
            final(self).leaders == old(self).leaders,
            final(self).view == old(self).view,
            final(self).roster_sel == old(self).roster_sel,
            final(self).pending == old(self).pending,
            final(self).should_quit == old(self).should_quit,
            final(self).username@ == Seq::<char>::empty(),
            final(self).message@ == (if copied {
                "✅ Issued a "@ + role@ + " key for "@ + username@
                    + " — credentials copied to clipboard."@
            } else {
                "✅ Issued a "@ + role@ + " key for "@ + username@
                    + ". (Install wl-copy to auto-copy.)"@
            }),
            final(self).last matches Some(i) && i.username@ == username@ && i.role@ == role@
                && i.poly_key@ == poly_key@,
    {
        self.students = students;
        let mut m = String::from_str("✅ Issued a ");
        push_str(&mut m, role.as_str());
        push_str(&mut m, " key for ");
        push_str(&mut m, username.as_str());
        if copied {
            push_str(&mut m, " — credentials copied to clipboard.");
        } else {
            push_str(&mut m, ". (Install wl-copy to auto-copy.)");
        }
        self.message = m;
        self.last = Some(Issued { username, role, poly_key });
        self.username = String::new();
    }

    /// Minting the key failed.
    pub fn issue_failed(&mut self, err: &str)
        ensures
            final(self)@ == (AdminView { message: "❌ "@ + err@, ..old(self)@ }),
            final(self).role_idx == old(self).role_idx,
            final(self).students == old(self).students,
            final(self).last == old(self).last,
            final(self).leaders == old(self).leaders,
    {
        let mut m = String::from_str("❌ ");
        push_str(&mut m, err);
        self.message = m;
    }

    /// The key was minted but the roster could not be saved.
    pub fn save_failed(&mut self, err: &str)
        ensures
            final(self)@ == (AdminView {
                message: "Issued, but failed to save to roster: "@ + err@,
                ..old(self)@
            }),
            final(self).role_idx == old(self).role_idx,
            final(self).students == old(self).students,
            final(self).last == old(self).last,
            final(self).leaders == old(self).leaders,
    {
        let mut m = String::from_str("Issued, but failed to save to roster: ");
        push_str(&mut m, err);
        self.message = m;
    }

    /// The selected member's username and credentials block (for the
    /// simulator at `base_url`), or `None` with a prompt on an empty roster.
    pub fn copy_target(&mut self, base_url: &str) -> (r: Option<(String, String)>)
        ensures
            final(self).role_idx == old(self).role_idx,
            final(self).students == old(self).students,
            final(self).last == old(self).last,
            final(self).leaders == old(self).leaders,
            old(self).roster_sel < old(self).students@.len() ==> {
                let st = old(self).students@[old(self).roster_sel as int];
                &&& final(self)@ == old(self)@
                &&& r matches Some(p) && p.0@ == st.username@ && p.1@ == creds_text(
                    st.username@,
                    st.role@,
                    st.poly_key@,
                    base_url@,
                )
            },
            old(self).roster_sel >= old(self).students@.len() ==> r is None && final(self)@ == (
            AdminView { message: "Roster is empty — issue a key first."@, ..old(self)@ }),
    {
        if self.roster_sel >= self.students.len() {
            self.message = String::from_str("Roster is empty — issue a key first.");
            return None;
        }
        let st = &self.students[self.roster_sel];
        let block = creds_block(
            st.username.as_str(),
            st.role.as_str(),
            st.poly_key.as_str(),
            base_url,
        );
        Some((st.username.clone(), block))
    }

    /// Report whether the credentials of `username` reached the clipboard.
    pub fn copy_finished(&mut self, username: &str, copied: bool)
        ensures
            final(self)@ == (AdminView {
                message: if copied {
                    "📋 Copied "@ + username@ + "'s credentials to the clipboard."@
                } else {
                    "Couldn't reach wl-copy — credentials for "@ + username@ + " not copied."@
                },
                ..old(self)@
            }),
            final(self).role_idx == old(self).role_idx,
            final(self).students == old(self).students,
            final(self).last == old(self).last,
            final(self).leaders == old(self).leaders,
    {
        let mut m = String::new();
        if copied {
            push_str(&mut m, "📋 Copied ");
            push_str(&mut m, username);
            push_str(&mut m, "'s credentials to the clipboard.");
        } else {
            push_str(&mut m, "Couldn't reach wl-copy — credentials for ");
            push_str(&mut m, username);
            push_str(&mut m, " not copied.");
        }
        self.message = m;
    }
}

/// Filtering by a predicate that every element meets keeps the sequence.
proof fn lemma_filter_all(s: Seq<LeaderView>, p: spec_fn(LeaderView) -> bool)
    requires
        forall|j: int| 0 <= j < s.len() ==> #[trigger] p(s[j]),
    ensures
        s.filter(p) == s,
    decreases s.len(),
{
    reveal(Seq::filter);
    if s.len() > 0 {
        lemma_filter_all(s.drop_last(), p);
        assert(s.drop_last().push(s.last()) =~= s);
    } else {
        assert(s.filter(p) =~= s);
    }
}

/// The simulator's reply after a single-member reset.
pub fn reset_done_message(username: &str) -> (m: String)
    ensures
        m@ == "♻ Reset "@ + username@ + " to the starting balance."@,
{
    let mut m = String::from_str("♻ Reset ");
    push_str(&mut m, username);
    push_str(&mut m, " to the starting balance.");
    m
}

/// The reply after every member was reset.
pub fn reset_all_done_message() -> (m: String)
    ensures
        m@ == "♻ Reset ALL members to the starting balance."@,
{
    String::from_str("♻ Reset ALL members to the starting balance.")
}

/// The reply after a member was removed.
pub fn removed_message(username: &str) -> (m: String)
    ensures
        m@ == "🗑 Removed "@ + username@ + " from the sim and the roster."@,
{
    let mut m = String::from_str("🗑 Removed ");
    push_str(&mut m, username);
    push_str(&mut m, " from the sim and the roster.");
    m
}

/// A destructive action runs only as the answer to a `y`/`Y` pressed
/// while it was staged, and any key clears what was staged.
pub proof fn lemma_confirm_only_on_yes(a: AdminView, k: KeyEvent)
    ensures
        admin_step(a, k).1 is Confirm ==> !(a.pending is Nothing) && (k.code == KeyCode::Char('y')
            || k.code == KeyCode::Char('Y')),
        admin_step(a, k).1 is Confirm ==> admin_step(a, k).1 == ActionView::Confirm(a.pending),
        !(a.pending is Nothing) ==> admin_step(a, k).0.pending is Nothing,
{
}

/// The roster selection always points into the roster (or is 0 when the
/// roster is empty), whatever key is pressed.
pub proof fn lemma_roster_selection_in_range(a: AdminView, k: KeyEvent)
    requires
        a.names.len() == 0 ==> a.roster_sel == 0,
        a.names.len() > 0 ==> 0 <= a.roster_sel < a.names.len(),
    ensures
        admin_step(a, k).0.names == a.names,
        a.names.len() == 0 ==> admin_step(a, k).0.roster_sel == 0,
        a.names.len() > 0 ==> 0 <= admin_step(a, k).0.roster_sel < a.names.len(),
{
}

/// The role picker cycles through the three roles in both directions.
pub proof fn lemma_role_picker_cycles(a: AdminView)
    requires
        a.view == Screen::Issue,
        a.pending is Nothing,
        0 <= a.role_idx < 3,
    ensures
        0 <= admin_step(a, KeyEvent { code: KeyCode::Right, ctrl: false }).0.role_idx < 3,
        admin_step(
            admin_step(a, KeyEvent { code: KeyCode::Right, ctrl: false }).0,
            KeyEvent { code: KeyCode::Left, ctrl: false },
        ).0.role_idx == a.role_idx,
{
}


/// With nothing staged, Shift-Tab (and `h` outside the Issue view) goes
/// back a view: Roster to Issue, Issue to Leaderboard, Leaderboard to
/// Roster; it refreshes the leaderboard only when it lands there, and it
/// undoes Tab.
pub proof fn lemma_backtab_goes_back(a: AdminView)
    requires
        a.pending is Nothing,
    ensures
        ({
            let back = KeyEvent { code: KeyCode::BackTab, ctrl: false };
            let tab = KeyEvent { code: KeyCode::Tab, ctrl: false };
            let (b, act) = admin_step(a, back);
            &&& b.view == (match a.view {
                Screen::Roster => Screen::Issue,
                Screen::Issue => Screen::Leaderboard,
                Screen::Leaderboard => Screen::Roster,
            })
            &&& (act is RefreshLeaderboard) == (b.view == Screen::Leaderboard)
            &&& (!(act is RefreshLeaderboard) ==> act is Nothing)
            &&& admin_step(admin_step(a, tab).0, back).0.view == a.view
            &&& admin_step(b, tab).0.view == a.view
            &&& (a.view != Screen::Issue ==> admin_step(
                a,
                KeyEvent { code: KeyCode::Char('h'), ctrl: false },
            ) == (b, act))
        }),
{
}

} // verus!
