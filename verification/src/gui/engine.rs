//! The desktop client's network engine as a step function. The engine
//! takes commands from the screen and answers each with HTTP calls,
//! section refreshes and messages back to the screen; here every decision
//! it makes is one step from the engine's state and an event (a command,
//! or the reply to a call the previous step asked for) to its new state
//! and the actions to perform, in order. The caller performs the actions
//! and feeds the replies back.
//!
//! Order payloads (price and size) are carried through untouched as `P`:
//! the engine never looks inside them.

use vstd::prelude::*;
use crate::gui::{
    api_error_text, cancel_result, issued_detail, order_detail, order_result, reset_detail,
    revoked_detail, role_wire, set_role_detail, ActionKind, ApiError, Config, ConnState, OrderSide,
    PaperKey, PolyCancelResponse, PolyOrderResponse, RevokedKey, Role, UiMessage,
};
use crate::text::{dec, push_dec, push_str};

verus! {

/// A user action the engine executes with HTTP calls.
pub enum Command<P> {
    /// Re-poll everything now instead of waiting for the tick.
    RefreshAll,
    /// Set the `q` filter for `/markets` and refresh the list.
    SetSearch(String),
    /// Set the `/markets` pagination offset and refresh the list.
    SetMarketsOffset(u32),
    /// Select an outcome token and fetch its book.
    SelectMarket { token_id: String },
    /// Place an order; `order` is its price (none for a market order) and size.
    PlaceOrder { token_id: String, side: OrderSide, order: P },
    /// Cancel an order by id.
    CancelOrder { order_id: String },
    /// Fetch a member profile from the public leaderboard server.
    FetchProfile { username: String },
    /// Admin: fetch a member's full detail from the sim.
    FetchAdminUser { username: String },
    /// Admin: mint a paper key with a role.
    IssueKey { username: String, display_name: String, role: Role },
    /// Owner: change an existing user's role.
    SetRole { username: String, role: Role },
    /// Admin: deactivate all of a user's API keys.
    RevokeKey { username: String },
    /// Admin: reset a paper balance (`None` resets everyone).
    ResetBalance { username: Option<String> },
    /// Admin: permanently delete a user and their data.
    DeleteUser { username: String },
    /// Owner: force-resolve a market to `yes` or `no`.
    ForceResolve { market_id: String, resolution: String },
    /// Re-fetch the public leaderboard (and the admin roster) now.
    RefreshLeaderboard,
}

/// A part of the shared snapshot that a refresh reloads.
pub enum Section {
    /// A full poll: health, markets, selected book, portfolio, leaderboard, roster.
    All,
    Markets,
    /// The order book of a token.
    Book(String),
    Portfolio,
    Leaderboard,
    Roster,
}

/// A call whose reply the engine needs before it can answer the command.
pub enum Request<P> {
    /// `GET /markets` with this page and search text; replied with whether it succeeded.
    Markets { limit: u32, offset: u32, q: String },
    /// The book of a token; replied with whether it succeeded.
    Book(String),
    /// The public leaderboard; replied with whether it succeeded.
    Leaderboard,
    PlaceOrder { token_id: String, side: OrderSide, order: P },
    CancelOrder(String),
    /// A public profile (kept by the caller until the engine says so).
    UserProfile(String),
    /// A member's full detail, kept the same way.
    AdminUser(String),
    CreatePaperKey { username: String, display_name: String, role: Role },
    SetRole { username: String, role: Role },
    RevokeKey(String),
    ResetBalance(Option<String>),
    DeleteUser(String),
    ForceResolve { market_id: String, resolution: String },
}

/// The reply to a [`Request`].
pub enum Reply {
    /// A refresh finished; whether it succeeded.
    Refreshed(bool),
    Order(Result<PolyOrderResponse, ApiError>),
    Cancel(Result<PolyCancelResponse, ApiError>),
    Key(Result<PaperKey, ApiError>),
    Revoked(Result<RevokedKey, ApiError>),
    /// A call whose reply carries nothing the engine reads.
    Done(Result<(), ApiError>),
}

/// What the engine is woken with.
pub enum EngineEvent<P> {
    Command(Command<P>),
    Reply(Reply),
}

/// One thing for the caller to do.
pub enum EngineAction<P> {
    /// Make this call and hand its reply to the next step.
    Request(Request<P>),
    /// Reload this section of the snapshot.
    Refresh(Section),
    /// Send this message to the screen.
    Send(UiMessage),
    /// Store the profile just fetched under this member, clearing the
    /// profile section's error.
    KeepProfile(String),
    /// Record this text as the profile section's error.
    ProfileError(String),
}

/// The command whose reply is awaited, with what answering it needs.
pub enum Awaiting {
    Search,
    Offset(u32),
    Select(String),
    Order(String),
    Cancel,
    Profile(String),
    AdminUser(String),
    Issue(String),
    SetRole(String, Role),
    Revoke,
    Reset(Option<String>),
    Delete(String),
    Resolve(String, String),
    Leaderboard,
}

/// What the engine remembers between steps.
pub struct EngineState {
    /// The markets search text.
    pub search: String,
    /// The markets page offset.
    pub markets_offset: u32,
    /// The token whose book is shown.
    pub selected_token: Option<String>,
    /// The command waiting for its reply, if any.
    pub awaiting: Option<Awaiting>,
}

impl EngineState {
    /// The engine before any command: no search, first page, nothing selected.
    pub fn new() -> (s: EngineState)
        ensures
            s@ == (EngineStateView { search: seq![], offset: 0, selected: None, awaiting: None }),
    {
        EngineState { search: String::new(), markets_offset: 0, selected_token: None, awaiting: None }
    }
}

// ---- plain values ----------------------------------------------------

pub enum SectionView {
    All,
    Markets,
    Book(Seq<char>),
    Portfolio,
    Leaderboard,
    Roster,
}

pub enum RequestView<P> {
    Markets { limit: u32, offset: u32, q: Seq<char> },
    Book(Seq<char>),
    Leaderboard,
    PlaceOrder { token_id: Seq<char>, side: OrderSide, order: P },
    CancelOrder(Seq<char>),
    UserProfile(Seq<char>),
    AdminUser(Seq<char>),
    CreatePaperKey { username: Seq<char>, display_name: Seq<char>, role: Role },
    SetRole { username: Seq<char>, role: Role },
    RevokeKey(Seq<char>),
    ResetBalance(Option<Seq<char>>),
    DeleteUser(Seq<char>),
    ForceResolve { market_id: Seq<char>, resolution: Seq<char> },
}

pub enum ConnView {
    Unknown,
    Connected(Seq<char>),
    Error(Seq<char>),
}

pub enum MsgView {
    Status(ConnView),
    ActionResult { kind: ActionKind, ok: bool, detail: Seq<char> },
    KeyIssued { username: Seq<char>, role: Seq<char>, api_key: Seq<char> },
}

pub enum ActionView<P> {
    Request(RequestView<P>),
    Refresh(SectionView),
    Send(MsgView),
    KeepProfile(Seq<char>),
    ProfileError(Seq<char>),
}

pub enum AwaitingView {
    Search,
    Offset(u32),
    Select(Seq<char>),
    Order(Seq<char>),
    Cancel,
    Profile(Seq<char>),
    AdminUser(Seq<char>),
    Issue(Seq<char>),
    SetRole(Seq<char>, Role),
    Revoke,
    Reset(Option<Seq<char>>),
    Delete(Seq<char>),
    Resolve(Seq<char>, Seq<char>),
    Leaderboard,
}

pub struct EngineStateView {
    pub search: Seq<char>,
    pub offset: u32,
    pub selected: Option<Seq<char>>,
    pub awaiting: Option<AwaitingView>,
}

pub open spec fn opt_text(o: Option<String>) -> Option<Seq<char>> {
    match o {
        Some(s) => Some(s@),
        None => None,
    }
}

pub open spec fn section_view(s: Section) -> SectionView {
    match s {
        Section::All => SectionView::All,
        Section::Markets => SectionView::Markets,
        Section::Book(t) => SectionView::Book(t@),
        Section::Portfolio => SectionView::Portfolio,
        Section::Leaderboard => SectionView::Leaderboard,
        Section::Roster => SectionView::Roster,
    }
}

pub open spec fn request_view<P>(r: Request<P>) -> RequestView<P> {
    match r {
        Request::Markets { limit, offset, q } => RequestView::Markets { limit, offset, q: q@ },
        Request::Book(t) => RequestView::Book(t@),
        Request::Leaderboard => RequestView::Leaderboard,
        Request::PlaceOrder { token_id, side, order } => RequestView::PlaceOrder {
            token_id: token_id@,
            side,
            order,
        },
        Request::CancelOrder(id) => RequestView::CancelOrder(id@),
        Request::UserProfile(u) => RequestView::UserProfile(u@),
        Request::AdminUser(u) => RequestView::AdminUser(u@),
        Request::CreatePaperKey { username, display_name, role } => RequestView::CreatePaperKey {
            username: username@,
            display_name: display_name@,
            role,
        },
        Request::SetRole { username, role } => RequestView::SetRole { username: username@, role },
        Request::RevokeKey(u) => RequestView::RevokeKey(u@),
        Request::ResetBalance(u) => RequestView::ResetBalance(opt_text(u)),
        Request::DeleteUser(u) => RequestView::DeleteUser(u@),
        Request::ForceResolve { market_id, resolution } => RequestView::ForceResolve {
            market_id: market_id@,
            resolution: resolution@,
        },
    }
}

pub open spec fn msg_view(m: UiMessage) -> MsgView {
    match m {
        UiMessage::Status { poly } => MsgView::Status(
            match poly {
                ConnState::Unknown => ConnView::Unknown,
                ConnState::Connected(v) => ConnView::Connected(v@),
                ConnState::Error(e) => ConnView::Error(e@),
            },
        ),
        UiMessage::ActionResult { kind, ok, detail } => MsgView::ActionResult {
            kind,
            ok,
            detail: detail@,
        },
        UiMessage::KeyIssued { username, role, api_key } => MsgView::KeyIssued {
            username: username@,
            role: role@,
            api_key: api_key@,
        },
    }
}

pub open spec fn action_view<P>(a: EngineAction<P>) -> ActionView<P> {
    match a {
        EngineAction::Request(r) => ActionView::Request(request_view(r)),
        EngineAction::Refresh(s) => ActionView::Refresh(section_view(s)),
        EngineAction::Send(m) => ActionView::Send(msg_view(m)),
        EngineAction::KeepProfile(u) => ActionView::KeepProfile(u@),
        EngineAction::ProfileError(e) => ActionView::ProfileError(e@),
    }
}

pub open spec fn actions_view<P>(acts: Seq<EngineAction<P>>) -> Seq<ActionView<P>> {
    acts.map_values(|a: EngineAction<P>| action_view(a))
}

pub open spec fn awaiting_view(w: Awaiting) -> AwaitingView {
    match w {
        Awaiting::Search => AwaitingView::Search,
        Awaiting::Offset(o) => AwaitingView::Offset(o),
        Awaiting::Select(t) => AwaitingView::Select(t@),
        Awaiting::Order(t) => AwaitingView::Order(t@),
        Awaiting::Cancel => AwaitingView::Cancel,
        Awaiting::Profile(u) => AwaitingView::Profile(u@),
        Awaiting::AdminUser(u) => AwaitingView::AdminUser(u@),
        Awaiting::Issue(u) => AwaitingView::Issue(u@),
        Awaiting::SetRole(u, r) => AwaitingView::SetRole(u@, r),
        Awaiting::Revoke => AwaitingView::Revoke,
        Awaiting::Reset(u) => AwaitingView::Reset(opt_text(u)),
        Awaiting::Delete(u) => AwaitingView::Delete(u@),
        Awaiting::Resolve(m, r) => AwaitingView::Resolve(m@, r@),
        Awaiting::Leaderboard => AwaitingView::Leaderboard,
    }
}

impl View for EngineState {
    type V = EngineStateView;

    open spec fn view(&self) -> EngineStateView {
        EngineStateView {
            search: self.search@,
            offset: self.markets_offset,
            selected: opt_text(self.selected_token),
            awaiting: match self.awaiting {
                Some(w) => Some(awaiting_view(w)),
                None => None,
            },
        }
    }
}

// ---- the step --------------------------------------------------------

/// The text of a string as Rust's `Debug` formatting writes it: quoted,
/// with quotes, backslashes and control characters escaped.
pub uninterp spec fn debug_quoted(s: Seq<char>) -> Seq<char>;

/// `s` formatted with `{:?}` (std's `Debug` for `str`).
#[verifier::external_body]
fn debug_text(s: &str) -> (r: String)
    ensures
        r@ == debug_quoted(s@),
{
    format!("{:?}", s)
}

/// How a command is answered: what comes first (refreshes the answer
/// depends on, a key to show, a profile to keep), the single result, and
/// the refreshes that follow it.
pub struct Finish<P> {
    pub lead: Seq<ActionView<P>>,
    pub kind: ActionKind,
    pub ok: bool,
    pub detail: Seq<char>,
    pub after: Seq<SectionView>,
}

/// The action that reports a command's outcome to the screen.
pub open spec fn result_action<P>(kind: ActionKind, ok: bool, detail: Seq<char>) -> ActionView<P> {
    ActionView::Send(MsgView::ActionResult { kind, ok, detail })
}

/// The actions of an answer, in order.
pub open spec fn assemble<P>(f: Finish<P>) -> Seq<ActionView<P>> {
    f.lead + seq![result_action(f.kind, f.ok, f.detail)] + f.after.map_values(
        |s: SectionView| ActionView::<P>::Refresh(s),
    )
}

/// A failed call: its error text is the result, nothing is refreshed.
pub open spec fn failed<P>(kind: ActionKind, e: ApiError) -> Finish<P> {
    Finish { lead: seq![], kind, ok: false, detail: api_error_text(e), after: seq![] }
}

/// A successful admin call: the result, followed by a roster reload.
pub open spec fn admin_done<P>(kind: ActionKind, detail: Seq<char>) -> Finish<P> {
    Finish { lead: seq![], kind, ok: true, detail, after: seq![SectionView::Roster] }
}

/// How the awaited command `w` is answered by reply `r` (in state `a`);
/// `None` when `r` is not the reply `w` waits for.
pub open spec fn reply_finish<P>(a: EngineStateView, w: AwaitingView, r: Reply) -> Option<Finish<P>> {
    match w {
        AwaitingView::Search => match r {
            Reply::Refreshed(ok) => Some(
                Finish {
                    lead: seq![],
                    kind: ActionKind::SetSearch,
                    ok,
                    detail: "search: "@ + debug_quoted(a.search),
                    after: seq![],
                },
            ),
            _ => None,
        },
        AwaitingView::Offset(o) => match r {
            Reply::Refreshed(ok) => Some(
                Finish {
                    lead: seq![],
                    kind: ActionKind::SetMarketsOffset,
                    ok,
                    detail: "offset "@ + dec(o as nat),
                    after: seq![],
                },
            ),
            _ => None,
        },
        AwaitingView::Select(t) => match r {
            Reply::Refreshed(ok) => Some(
                Finish { lead: seq![], kind: ActionKind::SelectMarket, ok, detail: t, after: seq![] },
            ),
            _ => None,
        },
        AwaitingView::Leaderboard => match r {
            Reply::Refreshed(ok) => Some(
                Finish {
                    lead: seq![ActionView::Refresh(SectionView::Roster)],
                    kind: ActionKind::RefreshLeaderboard,
                    ok,
                    detail: "leaderboard"@,
                    after: seq![],
                },
            ),
            _ => None,
        },
        AwaitingView::Order(t) => match r {
            Reply::Order(Ok(res)) => if res.success {
                Some(
                    Finish {
                        lead: seq![],
                        kind: ActionKind::PlaceOrder,
                        ok: true,
                        detail: order_detail(res.order_id@, res.status@),
                        after: seq![SectionView::Portfolio, SectionView::Book(t)],
                    },
                )
            } else {
                Some(
                    Finish {
                        lead: seq![],
                        kind: ActionKind::PlaceOrder,
                        ok: false,
                        detail: match res.error_msg {
                            Some(m) => m@,
                            None => "order rejected"@,
                        },
                        after: seq![],
                    },
                )
            },
            Reply::Order(Err(e)) => Some(failed(ActionKind::PlaceOrder, e)),
            _ => None,
        },
        AwaitingView::Cancel => match r {
            Reply::Cancel(Ok(res)) => Some(
                Finish {
                    lead: seq![],
                    kind: ActionKind::CancelOrder,
                    ok: res.success,
                    detail: order_detail(res.order_id@, res.status@),
                    after: seq![SectionView::Portfolio] + match a.selected {
                        Some(t) => seq![SectionView::Book(t)],
                        None => seq![],
                    },
                },
            ),
            Reply::Cancel(Err(e)) => Some(failed(ActionKind::CancelOrder, e)),
            _ => None,
        },
        AwaitingView::Profile(u) => match r {
            Reply::Done(Ok(_)) => Some(
                Finish {
                    lead: seq![ActionView::KeepProfile(u)],
                    kind: ActionKind::FetchProfile,
                    ok: true,
                    detail: u,
                    after: seq![],
                },
            ),
            Reply::Done(Err(e)) => Some(
                Finish {
                    lead: seq![ActionView::ProfileError(api_error_text(e))],
                    kind: ActionKind::FetchProfile,
                    ok: false,
                    detail: u + ": "@ + api_error_text(e),
                    after: seq![],
                },
            ),
            _ => None,
        },
        AwaitingView::AdminUser(u) => match r {
            Reply::Done(Ok(_)) => Some(
                Finish {
                    lead: seq![ActionView::KeepProfile(u)],
                    kind: ActionKind::FetchAdminUser,
                    ok: true,
                    detail: u,
                    after: seq![],
                },
            ),
            Reply::Done(Err(e)) => Some(
                Finish {
                    lead: seq![ActionView::ProfileError(api_error_text(e))],
                    kind: ActionKind::FetchAdminUser,
                    ok: false,
                    detail: u + ": "@ + api_error_text(e),
                    after: seq![],
                },
            ),
            _ => None,
        },
        AwaitingView::Issue(u) => match r {
            Reply::Key(Ok(k)) => Some(
                Finish {
                    lead: seq![
                        ActionView::Send(
                            MsgView::KeyIssued {
                                username: k.username@,
                                role: k.role@,
                                api_key: k.api_key@,
                            },
                        ),
                    ],
                    kind: ActionKind::IssueKey,
                    ok: true,
                    detail: "issued "@ + k.role@ + " key for "@ + u,
                    after: seq![SectionView::Roster],
                },
            ),
            Reply::Key(Err(e)) => Some(failed(ActionKind::IssueKey, e)),
            _ => None,
        },
        AwaitingView::SetRole(u, role) => match r {
            Reply::Done(Ok(_)) => Some(admin_done(ActionKind::SetRole, u + " is now "@ + role_wire(role))),
            Reply::Done(Err(e)) => Some(failed(ActionKind::SetRole, e)),
            _ => None,
        },
        AwaitingView::Revoke => match r {
            Reply::Revoked(Ok(res)) => Some(
                admin_done(
                    ActionKind::RevokeKey,
                    "revoked "@ + res.revoked@ + " ("@ + dec(res.keys_disabled as nat)
                        + " keys disabled)"@,
                ),
            ),
            Reply::Revoked(Err(e)) => Some(failed(ActionKind::RevokeKey, e)),
            _ => None,
        },
        AwaitingView::Reset(u) => match r {
            Reply::Done(Ok(_)) => Some(
                admin_done(
                    ActionKind::ResetBalance,
                    "reset "@ + match u {
                        Some(n) => n,
                        None => "ALL members"@,
                    },
                ),
            ),
            Reply::Done(Err(e)) => Some(failed(ActionKind::ResetBalance, e)),
            _ => None,
        },
        AwaitingView::Delete(u) => match r {
            Reply::Done(Ok(_)) => Some(admin_done(ActionKind::DeleteUser, "deleted "@ + u)),
            Reply::Done(Err(e)) => Some(failed(ActionKind::DeleteUser, e)),
            _ => None,
        },
        AwaitingView::Resolve(m, res) => match r {
            Reply::Done(Ok(_)) => Some(
                Finish {
                    lead: seq![],
                    kind: ActionKind::ForceResolve,
                    ok: true,
                    detail: "resolved "@ + m + " to "@ + res,
                    after: seq![SectionView::Markets, SectionView::Roster],
                },
            ),
            Reply::Done(Err(e)) => Some(failed(ActionKind::ForceResolve, e)),
            _ => None,
        },
    }
}

/// How an event is answered at once, if it is: a full refresh, or the
/// reply the awaited command waits for.
pub open spec fn step_finish<P>(a: EngineStateView, ev: EngineEvent<P>) -> Option<Finish<P>> {
    match ev {
        EngineEvent::Command(Command::RefreshAll) => Some(
            Finish {
                lead: seq![ActionView::Refresh(SectionView::All)],
                kind: ActionKind::RefreshAll,
                ok: true,
                detail: "refreshed"@,
                after: seq![],
            },
        ),
        EngineEvent::Command(_) => None,
        EngineEvent::Reply(r) => match a.awaiting {
            Some(w) => reply_finish(a, w, r),
            None => None,
        },
    }
}

/// `a` now waiting for `w`.
pub open spec fn awaiting_in(a: EngineStateView, w: AwaitingView) -> EngineStateView {
    EngineStateView { search: a.search, offset: a.offset, selected: a.selected, awaiting: Some(w) }
}

/// A command that needs a call first: the state waiting for its reply,
/// and the call.
pub open spec fn command_request<P>(a: EngineStateView, cfg: Config, c: Command<P>) -> Option<
    (EngineStateView, RequestView<P>),
> {
    match c {
        Command::RefreshAll => None,
        Command::SetSearch(q) => Some(
            (
                EngineStateView {
                    search: q@,
                    offset: 0,
                    selected: a.selected,
                    awaiting: Some(AwaitingView::Search),
                },
                RequestView::Markets { limit: cfg.market_limit, offset: 0, q: q@ },
            ),
        ),
        Command::SetMarketsOffset(o) => Some(
            (
                EngineStateView {
                    search: a.search,
                    offset: o,
                    selected: a.selected,
                    awaiting: Some(AwaitingView::Offset(o)),
                },
                RequestView::Markets { limit: cfg.market_limit, offset: o, q: a.search },
            ),
        ),
        Command::SelectMarket { token_id } => Some(
            (
                EngineStateView {
                    search: a.search,
                    offset: a.offset,
                    selected: Some(token_id@),
                    awaiting: Some(AwaitingView::Select(token_id@)),
                },
                RequestView::Book(token_id@),
            ),
        ),
        Command::PlaceOrder { token_id, side, order } => Some(
            (
                awaiting_in(a, AwaitingView::Order(token_id@)),
                RequestView::PlaceOrder { token_id: token_id@, side, order },
            ),
        ),
        Command::CancelOrder { order_id } => Some(
            (awaiting_in(a, AwaitingView::Cancel), RequestView::CancelOrder(order_id@)),
        ),
        Command::FetchProfile { username } => Some(
            (awaiting_in(a, AwaitingView::Profile(username@)), RequestView::UserProfile(username@)),
        ),
        Command::FetchAdminUser { username } => Some(
            (awaiting_in(a, AwaitingView::AdminUser(username@)), RequestView::AdminUser(username@)),
        ),
        Command::IssueKey { username, display_name, role } => Some(
            (
                awaiting_in(a, AwaitingView::Issue(username@)),
                RequestView::CreatePaperKey {
                    username: username@,
                    display_name: display_name@,
                    role,
                },
            ),
        ),
        Command::SetRole { username, role } => Some(
            (
                awaiting_in(a, AwaitingView::SetRole(username@, role)),
                RequestView::SetRole { username: username@, role },
            ),
        ),
        Command::RevokeKey { username } => Some(
            (awaiting_in(a, AwaitingView::Revoke), RequestView::RevokeKey(username@)),
        ),
        Command::ResetBalance { username } => Some(
            (
                awaiting_in(a, AwaitingView::Reset(opt_text(username))),
                RequestView::ResetBalance(opt_text(username)),
            ),
        ),
        Command::DeleteUser { username } => Some(
            (awaiting_in(a, AwaitingView::Delete(username@)), RequestView::DeleteUser(username@)),
        ),
        Command::ForceResolve { market_id, resolution } => Some(
            (
                awaiting_in(a, AwaitingView::Resolve(market_id@, resolution@)),
                RequestView::ForceResolve { market_id: market_id@, resolution: resolution@ },
            ),
        ),
        Command::RefreshLeaderboard => Some(
            (awaiting_in(a, AwaitingView::Leaderboard), RequestView::Leaderboard),
        ),
    }
}

/// One engine step: from state `a` and event `ev`, the new state and the
/// actions to perform in order. An answered command leaves nothing
/// awaited; a command that needs a call waits for its reply; a reply that
/// nothing waits for changes nothing.
pub open spec fn engine_step_spec<P>(a: EngineStateView, cfg: Config, ev: EngineEvent<P>) -> (
    EngineStateView,
    Seq<ActionView<P>>,
) {
    match step_finish(a, ev) {
        Some(f) => (
            EngineStateView { search: a.search, offset: a.offset, selected: a.selected, awaiting: None },
            assemble(f),
        ),
        None => match ev {
            EngineEvent::Command(c) => match command_request(a, cfg, c) {
                Some((b, q)) => (b, seq![ActionView::Request(q)]),
                None => (a, seq![]),
            },
            EngineEvent::Reply(_) => (a, seq![]),
        },
    }
}

fn copy_text(s: &String) -> (r: String)
    ensures
        r@ == s@,
{
    s.clone()
}

fn copy_opt(s: &Option<String>) -> (r: Option<String>)
    ensures
        opt_text(r) == opt_text(*s),
{
    match s {
        Some(t) => Some(t.clone()),
        None => None,
    }
}

/// The actions of an answer: `lead`, the result, and a refresh of each
/// section in `after`.
fn finish_actions<P>(
    lead: Vec<EngineAction<P>>,
    kind: ActionKind,
    ok: bool,
    detail: String,
    after: Vec<Section>,
) -> (v: Vec<EngineAction<P>>)
    ensures
        actions_view(v@) == assemble(
            Finish {
                lead: actions_view(lead@),
                kind,
                ok,
                detail: detail@,
                after: after@.map_values(|s: Section| section_view(s)),
            },
        ),
{
    let ghost d = detail@;
    let ghost lv = actions_view(lead@);
    let ghost tv = after@.map_values(|s: Section| section_view(s));
    let mut v = lead;
    v.push(EngineAction::Send(UiMessage::ActionResult { kind, ok, detail }));
    let ghost head = lv + seq![result_action::<P>(kind, ok, d)];
    proof {
        assert(actions_view(v@) =~= head);
    }
    let mut rest = after;
    let total_n: usize = rest.len();
    let ghost total = total_n as nat;
    let mut i: usize = 0;
    let mut out: Vec<Section> = Vec::new();
    proof {
        assert(rest@.map_values(|s: Section| section_view(s)) == tv);
    }
    while rest.len() > 0
        invariant
            i <= total,
            total <= usize::MAX,
            rest@.len() + i == total,
            tv.len() == total,
            forall|j: int| 0 <= j < rest@.len() ==> section_view(#[trigger] rest@[j]) == tv[(j + i) as int],
            actions_view(v@) =~= head + tv.take(i as int).map_values(
                |s: SectionView| ActionView::<P>::Refresh(s),
            ),
        decreases rest@.len(),
    {
        let s = rest.remove(0);
        proof {
            assert(section_view(s) == tv[i as int]);
        }
        let ghost before = v@;
        v.push(EngineAction::Refresh(s));
        proof {
            assert(tv.take(i + 1) =~= tv.take(i as int).push(tv[i as int]));
            assert(v@ =~= before.push(EngineAction::Refresh(s)));
            assert(actions_view(v@) =~= actions_view(before).push(ActionView::Refresh(section_view(s))));
            assert forall|j: int| 0 <= j < rest@.len() implies section_view(#[trigger] rest@[j])
                == tv[(j + i + 1) as int] by {
            }
        }
        i = i + 1;
    }
    proof {
        assert(tv.take(i as int) =~= tv);
    }
    v
}

fn result_only<P>(kind: ActionKind, ok: bool, detail: String) -> (v: Vec<EngineAction<P>>)
    ensures
        actions_view(v@) == assemble(
            Finish::<P> { lead: seq![], kind, ok, detail: detail@, after: seq![] },
        ),
{
    let v = finish_actions(Vec::new(), kind, ok, detail, Vec::new());
    proof {
        assert(actions_view(Seq::<EngineAction<P>>::empty()) =~= seq![]);
        assert(Seq::<Section>::empty().map_values(|s: Section| section_view(s)) =~= seq![]);
    }
    v
}

fn fail_actions<P>(kind: ActionKind, e: &ApiError) -> (v: Vec<EngineAction<P>>)
    ensures
        actions_view(v@) == assemble(failed::<P>(kind, *e)),
{
    result_only(kind, false, e.message())
}

fn admin_actions<P>(kind: ActionKind, detail: String) -> (v: Vec<EngineAction<P>>)
    ensures
        actions_view(v@) == assemble(admin_done::<P>(kind, detail@)),
{
    let mut after: Vec<Section> = Vec::new();
    after.push(Section::Roster);
    proof {
        assert(after@.map_values(|s: Section| section_view(s)) =~= seq![SectionView::Roster]);
        assert(actions_view(Seq::<EngineAction<P>>::empty()) =~= seq![]);
    }
    finish_actions(Vec::new(), kind, true, detail, after)
}

fn concat(a: &str, b: &str) -> (r: String)
    ensures
        r@ == a@ + b@,
{
    let mut r = String::new();
    push_str(&mut r, a);
    push_str(&mut r, b);
    r
}

/// The answer to reply `r` for the awaited command `w`, or `None` when
/// `r` is not the reply `w` waits for.
fn answer_reply<P>(st: &EngineState, w: &Awaiting, r: Reply) -> (v: Option<Vec<EngineAction<P>>>)
    ensures
        match reply_finish::<P>(st@, awaiting_view(*w), r) {
            Some(f) => v matches Some(acts) && actions_view(acts@) == assemble(f),
            None => v is None,
        },
{
    match w {
        Awaiting::Search => match r {
            Reply::Refreshed(ok) => {
                let d = concat("search: ", debug_text(st.search.as_str()).as_str());
                Some(result_only(ActionKind::SetSearch, ok, d))
            },
            _ => None,
        },
        Awaiting::Offset(o) => match r {
            Reply::Refreshed(ok) => {
                let mut d = String::from_str("offset ");
                push_dec(&mut d, *o as u128);
                Some(result_only(ActionKind::SetMarketsOffset, ok, d))
            },
            _ => None,
        },
        Awaiting::Select(t) => match r {
            Reply::Refreshed(ok) => Some(result_only(ActionKind::SelectMarket, ok, copy_text(t))),
            _ => None,
        },
        Awaiting::Leaderboard => match r {
            Reply::Refreshed(ok) => {
                let mut lead: Vec<EngineAction<P>> = Vec::new();
                lead.push(EngineAction::Refresh(Section::Roster));
                proof {
                    assert(actions_view(lead@) =~= seq![ActionView::<P>::Refresh(SectionView::Roster)]);
                    assert(Seq::<Section>::empty().map_values(|s: Section| section_view(s)) =~= seq![]);
                }
                Some(
                    finish_actions(
                        lead,
                        ActionKind::RefreshLeaderboard,
                        ok,
                        String::from_str("leaderboard"),
                        Vec::new(),
                    ),
                )
            },
            _ => None,
        },
        Awaiting::Order(t) => match r {
            Reply::Order(Ok(res)) => {
                let (ok, d) = order_result(&res);
                if ok {
                    let mut after: Vec<Section> = Vec::new();
                    after.push(Section::Portfolio);
                    after.push(Section::Book(copy_text(t)));
                    proof {
                        assert(after@.map_values(|s: Section| section_view(s)) =~= seq![
                            SectionView::Portfolio,
                            SectionView::Book(t@),
                        ]);
                        assert(actions_view(Seq::<EngineAction<P>>::empty()) =~= seq![]);
                    }
                    Some(finish_actions(Vec::new(), ActionKind::PlaceOrder, true, d, after))
                } else {
                    Some(result_only(ActionKind::PlaceOrder, false, d))
                }
            },
            Reply::Order(Err(e)) => Some(fail_actions(ActionKind::PlaceOrder, &e)),
            _ => None,
        },
        Awaiting::Cancel => match r {
            Reply::Cancel(Ok(res)) => {
                let (ok, d) = cancel_result(&res);
                let mut after: Vec<Section> = Vec::new();
                after.push(Section::Portfolio);
                match &st.selected_token {
                    Some(t) => after.push(Section::Book(copy_text(t))),
                    None => {},
                }
                proof {
                    assert(after@.map_values(|s: Section| section_view(s)) =~= seq![
                        SectionView::Portfolio,
                    ] + match st@.selected {
                        Some(t) => seq![SectionView::Book(t)],
                        None => seq![],
                    });
                    assert(actions_view(Seq::<EngineAction<P>>::empty()) =~= seq![]);
                }
                Some(finish_actions(Vec::new(), ActionKind::CancelOrder, ok, d, after))
            },
            Reply::Cancel(Err(e)) => Some(fail_actions(ActionKind::CancelOrder, &e)),
            _ => None,
        },
        Awaiting::Profile(u) | Awaiting::AdminUser(u) => {
            let kind = match w {
                Awaiting::Profile(_) => ActionKind::FetchProfile,
                _ => ActionKind::FetchAdminUser,
            };
            match r {
                Reply::Done(Ok(_)) => {
                    let mut lead: Vec<EngineAction<P>> = Vec::new();
                    lead.push(EngineAction::KeepProfile(copy_text(u)));
                    proof {
                        assert(actions_view(lead@) =~= seq![ActionView::<P>::KeepProfile(u@)]);
                        assert(Seq::<Section>::empty().map_values(|s: Section| section_view(s)) =~= seq![]);
                    }
                    Some(finish_actions(lead, kind, true, copy_text(u), Vec::new()))
                },
                Reply::Done(Err(e)) => {
                    let msg = e.message();
                    let mut lead: Vec<EngineAction<P>> = Vec::new();
                    lead.push(EngineAction::ProfileError(copy_text(&msg)));
                    let mut d = copy_text(u);
                    push_str(&mut d, ": ");
                    push_str(&mut d, msg.as_str());
                    proof {
                        assert(actions_view(lead@) =~= seq![ActionView::<P>::ProfileError(api_error_text(e))]);
                        assert(Seq::<Section>::empty().map_values(|s: Section| section_view(s)) =~= seq![]);
                    }
                    Some(finish_actions(lead, kind, false, d, Vec::new()))
                },
                _ => None,
            }
        },
        Awaiting::Issue(u) => match r {
            Reply::Key(Ok(k)) => {
                let d = issued_detail(k.role.as_str(), u.as_str());
                let mut lead: Vec<EngineAction<P>> = Vec::new();
                let ghost kv = (k.username@, k.role@, k.api_key@);
                lead.push(
                    EngineAction::Send(
                        UiMessage::KeyIssued { username: k.username, role: k.role, api_key: k.api_key },
                    ),
                );
                let mut after: Vec<Section> = Vec::new();
                after.push(Section::Roster);
                proof {
                    assert(actions_view(lead@) =~= seq![
                        ActionView::<P>::Send(
                            MsgView::KeyIssued { username: kv.0, role: kv.1, api_key: kv.2 },
                        ),
                    ]);
                    assert(after@.map_values(|s: Section| section_view(s)) =~= seq![SectionView::Roster]);
                }
                Some(finish_actions(lead, ActionKind::IssueKey, true, d, after))
            },
            Reply::Key(Err(e)) => Some(fail_actions(ActionKind::IssueKey, &e)),
            _ => None,
        },
        Awaiting::SetRole(u, role) => match r {
            Reply::Done(Ok(_)) => Some(admin_actions(ActionKind::SetRole, set_role_detail(u.as_str(), *role))),
            Reply::Done(Err(e)) => Some(fail_actions(ActionKind::SetRole, &e)),
            _ => None,
        },
        Awaiting::Revoke => match r {
            Reply::Revoked(Ok(res)) => Some(admin_actions(ActionKind::RevokeKey, revoked_detail(&res))),
            Reply::Revoked(Err(e)) => Some(fail_actions(ActionKind::RevokeKey, &e)),
            _ => None,
        },
        Awaiting::Reset(u) => match r {
            Reply::Done(Ok(_)) => {
                let d = match u {
                    Some(n) => reset_detail(Some(n.as_str())),
                    None => reset_detail(None),
                };
                Some(admin_actions(ActionKind::ResetBalance, d))
            },
            Reply::Done(Err(e)) => Some(fail_actions(ActionKind::ResetBalance, &e)),
            _ => None,
        },
        Awaiting::Delete(u) => match r {
            Reply::Done(Ok(_)) => Some(admin_actions(ActionKind::DeleteUser, concat("deleted ", u.as_str()))),
            Reply::Done(Err(e)) => Some(fail_actions(ActionKind::DeleteUser, &e)),
            _ => None,
        },
        Awaiting::Resolve(m, res) => match r {
            Reply::Done(Ok(_)) => {
                let mut d = concat("resolved ", m.as_str());
                push_str(&mut d, " to ");
                push_str(&mut d, res.as_str());
                let mut after: Vec<Section> = Vec::new();
                after.push(Section::Markets);
                after.push(Section::Roster);
                proof {
                    assert(after@.map_values(|s: Section| section_view(s)) =~= seq![
                        SectionView::Markets,
                        SectionView::Roster,
                    ]);
                    assert(actions_view(Seq::<EngineAction<P>>::empty()) =~= seq![]);
                }
                Some(finish_actions(Vec::new(), ActionKind::ForceResolve, true, d, after))
            },
            Reply::Done(Err(e)) => Some(fail_actions(ActionKind::ForceResolve, &e)),
            _ => None,
        },
    }
}

fn one_request<P>(q: Request<P>) -> (v: Vec<EngineAction<P>>)
    ensures
        actions_view(v@) == seq![ActionView::Request(request_view(q))],
{
    let mut v: Vec<EngineAction<P>> = Vec::new();
    v.push(EngineAction::Request(q));
    proof {
        assert(actions_view(v@) =~= seq![ActionView::Request(request_view(q))]);
    }
    v
}

/// One engine step: the new state and the actions to perform, in order.
pub fn engine_step<P>(s: &mut EngineState, cfg: &Config, ev: EngineEvent<P>) -> (acts: Vec<
    EngineAction<P>,
>)
    ensures
        (final(s)@, actions_view(acts@)) == engine_step_spec(old(s)@, *cfg, ev),
{
    match ev {
        EngineEvent::Reply(r) => {
            let ans = match &s.awaiting {
                Some(w) => answer_reply(s, w, r),
                None => None,
            };
            match ans {
                Some(acts) => {
                    s.awaiting = None;
                    acts
                },
                None => {
                    proof {
                        assert(actions_view(Seq::<EngineAction<P>>::empty()) =~= seq![]);
                    }
                    Vec::new()
                },
            }
        },
        EngineEvent::Command(c) => match c {
            Command::RefreshAll => {
                s.awaiting = None;
                let mut lead: Vec<EngineAction<P>> = Vec::new();
                lead.push(EngineAction::Refresh(Section::All));
                proof {
                    assert(actions_view(lead@) =~= seq![ActionView::<P>::Refresh(SectionView::All)]);
                    assert(Seq::<Section>::empty().map_values(|s: Section| section_view(s)) =~= seq![]);
                }
                finish_actions(lead, ActionKind::RefreshAll, true, String::from_str("refreshed"), Vec::new())
            },
            Command::SetSearch(q) => {
                s.search = copy_text(&q);
                s.markets_offset = 0;
                s.awaiting = Some(Awaiting::Search);
                one_request(Request::Markets { limit: cfg.market_limit, offset: 0, q })
            },
            Command::SetMarketsOffset(o) => {
                s.markets_offset = o;
                s.awaiting = Some(Awaiting::Offset(o));
                one_request(Request::Markets { limit: cfg.market_limit, offset: o, q: copy_text(&s.search) })
            },
            Command::SelectMarket { token_id } => {
                s.selected_token = Some(copy_text(&token_id));
                s.awaiting = Some(Awaiting::Select(copy_text(&token_id)));
                one_request(Request::Book(token_id))
            },
            Command::PlaceOrder { token_id, side, order } => {
                s.awaiting = Some(Awaiting::Order(copy_text(&token_id)));
                one_request(Request::PlaceOrder { token_id, side, order })
            },
            Command::CancelOrder { order_id } => {
                s.awaiting = Some(Awaiting::Cancel);
                one_request(Request::CancelOrder(order_id))
            },
            Command::FetchProfile { username } => {
                s.awaiting = Some(Awaiting::Profile(copy_text(&username)));
                one_request(Request::UserProfile(username))
            },
            Command::FetchAdminUser { username } => {
                s.awaiting = Some(Awaiting::AdminUser(copy_text(&username)));
                one_request(Request::AdminUser(username))
            },
            Command::IssueKey { username, display_name, role } => {
                s.awaiting = Some(Awaiting::Issue(copy_text(&username)));
                one_request(Request::CreatePaperKey { username, display_name, role })
            },
            Command::SetRole { username, role } => {
                s.awaiting = Some(Awaiting::SetRole(copy_text(&username), role));
                one_request(Request::SetRole { username, role })
            },
            Command::RevokeKey { username } => {
                s.awaiting = Some(Awaiting::Revoke);
                one_request(Request::RevokeKey(username))
            },
            Command::ResetBalance { username } => {
                s.awaiting = Some(Awaiting::Reset(copy_opt(&username)));
                one_request(Request::ResetBalance(username))
            },
            Command::DeleteUser { username } => {
                s.awaiting = Some(Awaiting::Delete(copy_text(&username)));
                one_request(Request::DeleteUser(username))
            },
            Command::ForceResolve { market_id, resolution } => {
                s.awaiting = Some(Awaiting::Resolve(copy_text(&market_id), copy_text(&resolution)));
                one_request(Request::ForceResolve { market_id, resolution })
            },
            Command::RefreshLeaderboard => {
                s.awaiting = Some(Awaiting::Leaderboard);
                one_request(Request::Leaderboard)
            },
        },
    }
}


// ---- laws ------------------------------------------------------------

/// The command an awaited reply answers.
pub open spec fn awaiting_kind(w: AwaitingView) -> ActionKind {
    match w {
        AwaitingView::Search => ActionKind::SetSearch,
        AwaitingView::Offset(_) => ActionKind::SetMarketsOffset,
        AwaitingView::Select(_) => ActionKind::SelectMarket,
        AwaitingView::Order(_) => ActionKind::PlaceOrder,
        AwaitingView::Cancel => ActionKind::CancelOrder,
        AwaitingView::Profile(_) => ActionKind::FetchProfile,
        AwaitingView::AdminUser(_) => ActionKind::FetchAdminUser,
        AwaitingView::Issue(_) => ActionKind::IssueKey,
        AwaitingView::SetRole(_, _) => ActionKind::SetRole,
        AwaitingView::Revoke => ActionKind::RevokeKey,
        AwaitingView::Reset(_) => ActionKind::ResetBalance,
        AwaitingView::Delete(_) => ActionKind::DeleteUser,
        AwaitingView::Resolve(_, _) => ActionKind::ForceResolve,
        AwaitingView::Leaderboard => ActionKind::RefreshLeaderboard,
    }
}

/// The kind of a command.
pub open spec fn command_kind<P>(c: Command<P>) -> ActionKind {
    match c {
        Command::RefreshAll => ActionKind::RefreshAll,
        Command::SetSearch(_) => ActionKind::SetSearch,
        Command::SetMarketsOffset(_) => ActionKind::SetMarketsOffset,
        Command::SelectMarket { .. } => ActionKind::SelectMarket,
        Command::PlaceOrder { .. } => ActionKind::PlaceOrder,
        Command::CancelOrder { .. } => ActionKind::CancelOrder,
        Command::FetchProfile { .. } => ActionKind::FetchProfile,
        Command::FetchAdminUser { .. } => ActionKind::FetchAdminUser,
        Command::IssueKey { .. } => ActionKind::IssueKey,
        Command::SetRole { .. } => ActionKind::SetRole,
        Command::RevokeKey { .. } => ActionKind::RevokeKey,
        Command::ResetBalance { .. } => ActionKind::ResetBalance,
        Command::DeleteUser { .. } => ActionKind::DeleteUser,
        Command::ForceResolve { .. } => ActionKind::ForceResolve,
        Command::RefreshLeaderboard => ActionKind::RefreshLeaderboard,
    }
}

/// Whether an action reports a command's outcome.
pub open spec fn is_result<P>(x: ActionView<P>) -> bool {
    x matches ActionView::Send(MsgView::ActionResult { .. })
}

/// Whether an action sends anything to the screen.
pub open spec fn is_message<P>(x: ActionView<P>) -> bool {
    x is Send
}

proof fn lemma_lead_quiet<P>(a: EngineStateView, w: AwaitingView, r: Reply)
    requires
        reply_finish::<P>(a, w, r) is Some,
    ensures
        ({
            let f = reply_finish::<P>(a, w, r).unwrap();
            &&& f.kind == awaiting_kind(w)
            &&& f.lead.len() <= 1
            &&& forall|j: int| 0 <= j < f.lead.len() ==> !is_result(#[trigger] f.lead[j])
        }),
{
}

/// A command is answered exactly once: when a step answers one (a full
/// refresh, or the reply its call waited for), exactly one result goes to
/// the screen, it names that command, it is the last message of the step,
/// and only refreshes follow it; nothing is left awaited.
pub proof fn lemma_one_result_last<P>(a: EngineStateView, cfg: Config, ev: EngineEvent<P>)
    requires
        step_finish(a, ev) is Some,
    ensures
        ({
            let f = step_finish(a, ev).unwrap();
            let (b, acts) = engine_step_spec(a, cfg, ev);
            let i = f.lead.len() as int;
            &&& 0 <= i < acts.len()
            &&& acts[i] == result_action::<P>(f.kind, f.ok, f.detail)
            &&& (ev is Command ==> f.kind == ActionKind::RefreshAll)
            &&& (ev is Reply ==> f.kind == awaiting_kind(a.awaiting.unwrap()))
            &&& forall|j: int| 0 <= j < acts.len() && j != i ==> !is_result(#[trigger] acts[j])
            &&& forall|j: int| i < j < acts.len() ==> !is_message(#[trigger] acts[j])
            &&& b.awaiting is None
        }),
{
    let f = step_finish(a, ev).unwrap();
    match ev {
        EngineEvent::Reply(r) => {
            lemma_lead_quiet::<P>(a, a.awaiting.unwrap(), r);
        },
        EngineEvent::Command(_) => {},
    }
    let acts = assemble(f);
    let i = f.lead.len() as int;
    let tail = f.after.map_values(|s: SectionView| ActionView::<P>::Refresh(s));
    assert forall|j: int| 0 <= j < acts.len() && j != i implies !is_result(#[trigger] acts[j]) by {
        if j < i {
            assert(acts[j] == f.lead[j]);
        } else {
            assert(acts[j] == tail[j - i - 1]);
        }
    }
    assert forall|j: int| i < j < acts.len() implies !is_message(#[trigger] acts[j]) by {
        assert(acts[j] == tail[j - i - 1]);
    }
}

/// A command that needs a call sends nothing to the screen yet: its one
/// action is the call, and the engine then waits for the reply that
/// answers that same command.
pub proof fn lemma_command_waits<P>(a: EngineStateView, cfg: Config, c: Command<P>)
    requires
        !(c is RefreshAll),
    ensures
        ({
            let (b, acts) = engine_step_spec(a, cfg, EngineEvent::Command(c));
            &&& acts.len() == 1
            &&& acts[0] is Request
            &&& b.awaiting matches Some(w) && awaiting_kind(w) == command_kind(c)
        }),
{
}

/// An issued key reaches the screen before the result that reports it.
pub proof fn lemma_key_before_result<P>(a: EngineStateView, cfg: Config, k: PaperKey)
    requires
        a.awaiting matches Some(AwaitingView::Issue(_)),
    ensures
        ({
            let (b, acts) = engine_step_spec::<P>(a, cfg, EngineEvent::Reply(Reply::Key(Ok(k))));
            &&& acts[0] == ActionView::<P>::Send(
                MsgView::KeyIssued { username: k.username@, role: k.role@, api_key: k.api_key@ },
            )
            &&& acts[1] matches ActionView::Send(MsgView::ActionResult { kind, ok, .. }) && kind
                == ActionKind::IssueKey && ok
        }),
{
}

/// An order's outcome is the simulator's `success` flag, not the HTTP
/// status; a rejection shows the simulator's message (or `order
/// rejected`), and only an accepted order refreshes the portfolio and the
/// book.
pub proof fn lemma_order_follows_flag<P>(a: EngineStateView, cfg: Config, res: PolyOrderResponse)
    requires
        a.awaiting matches Some(AwaitingView::Order(_)),
    ensures
        ({
            let t = a.awaiting.unwrap()->Order_0;
            let (b, acts) = engine_step_spec::<P>(a, cfg, EngineEvent::Reply(Reply::Order(Ok(res))));
            &&& acts[0] matches ActionView::Send(MsgView::ActionResult { kind, ok, detail }) && kind
                == ActionKind::PlaceOrder && ok == res.success
            &&& !res.success ==> acts == seq![
                result_action::<P>(
                    ActionKind::PlaceOrder,
                    false,
                    match res.error_msg {
                        Some(m) => m@,
                        None => "order rejected"@,
                    },
                ),
            ]
            &&& res.success ==> acts.len() == 3 && acts[1] == ActionView::<P>::Refresh(
                SectionView::Portfolio,
            ) && acts[2] == ActionView::<P>::Refresh(SectionView::Book(t))
        }),
{
    let (b, acts) = engine_step_spec::<P>(a, cfg, EngineEvent::Reply(Reply::Order(Ok(res))));
    if !res.success {
        assert(acts =~= seq![
            result_action::<P>(
                ActionKind::PlaceOrder,
                false,
                match res.error_msg {
                    Some(m) => m@,
                    None => "order rejected"@,
                },
            ),
        ]);
    }
}

/// A new search goes back to the first page and asks for it.
pub proof fn lemma_search_resets_offset<P>(a: EngineStateView, cfg: Config, q: String)
    ensures
        ({
            let (b, acts) = engine_step_spec::<P>(a, cfg, EngineEvent::Command(Command::SetSearch(q)));
            &&& b.offset == 0
            &&& b.search == q@
            &&& acts == seq![
                ActionView::<P>::Request(RequestView::Markets { limit: cfg.market_limit, offset: 0, q: q@ }),
            ]
        }),
{
}


/// Paging keeps the search: after a search for `q`, moving to any page asks
/// the simulator for that page of the same search.
pub proof fn lemma_paging_keeps_search<P>(a: EngineStateView, cfg: Config, q: String, o: u32)
    ensures
        ({
            let (b, _) = engine_step_spec::<P>(a, cfg, EngineEvent::Command(Command::SetSearch(q)));
            let (c, acts) = engine_step_spec::<P>(b, cfg, EngineEvent::Command(Command::SetMarketsOffset(o)));
            &&& acts == seq![
                ActionView::<P>::Request(RequestView::Markets { limit: cfg.market_limit, offset: o, q: q@ }),
            ]
            &&& c.search == q@
            &&& c.offset == o
        }),
{
}

/// Any page request carries the search currently set.
pub proof fn lemma_page_request_uses_current_search<P>(a: EngineStateView, cfg: Config, o: u32)
    ensures
        ({
            let (c, acts) = engine_step_spec::<P>(a, cfg, EngineEvent::Command(Command::SetMarketsOffset(o)));
            &&& acts.len() == 1
            &&& acts[0] matches ActionView::Request(RequestView::Markets { q, offset, .. }) && q == a.search
                && offset == o
            &&& c.search == a.search
        }),
{
}

} // verus!
