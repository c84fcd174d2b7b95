//! The desktop client's core: its configuration, the messages between its
//! screen and its network engine, the simulator's reply shapes, and the
//! decisions the screen and the engine make on them.

pub mod engine;

use std::time::{Duration, Instant};
use crate::clock::{as_millis, elapsed, now};
use vstd::prelude::*;
use crate::text::{push_dec, push_str, text_is, to_chars, trim_chars, trim_text, contains_chars, has_infix};

verus! {

/// Smallest allowed poll interval, in seconds.
pub const TICK_SECONDS_MIN: u64 = 1;
/// Largest allowed poll interval, in seconds.
pub const TICK_SECONDS_MAX: u64 = 60;
/// Smallest allowed market list size.
pub const MARKET_LIMIT_MIN: u32 = 1;
/// Largest allowed market list size (the sim clamps to 500 server-side).
pub const MARKET_LIMIT_MAX: u32 = 500;
/// Default Polymarket simulator base: the club's hosted instance.
pub const DEFAULT_POLY_URL: &'static str = "https://poly.teddytennant.com";
/// Default leaderboard server base: serves the public ranking JSON.
pub const DEFAULT_LEADERBOARD_URL: &'static str = "https://predlab.teddytennant.com";

/// Everything the client and its engine need to talk to the simulator and
/// the public leaderboard server.
#[derive(Debug, Clone, PartialEq)]
pub struct Config {
    /// Whether the first-run onboarding flow has completed.
    pub onboarded: bool,
    /// Base URL of the Polymarket simulator.
    pub poly_url: String,
    /// Base URL of the public leaderboard site.
    pub leaderboard_url: String,
    /// Paper API key (`pm_paper_...`), sent as `POLY_API_KEY`.
    pub poly_api_key: String,
    /// Sim master admin secret (`X-Admin-Secret`, owner rank). Empty means
    /// admin access depends on the API key's own role.
    pub poly_admin_secret: String,
    /// Poll interval in seconds, clamped to `1..=60`.
    pub tick_seconds: u64,
    /// Max markets fetched per poll (the sim caps at 500).
    pub market_limit: u32,
}

impl Default for Config {
    fn default() -> (c: Config)
        ensures
            !c.onboarded,
            c.poly_url@ == DEFAULT_POLY_URL@,
            c.leaderboard_url@ == DEFAULT_LEADERBOARD_URL@,
            c.poly_api_key@ == Seq::<char>::empty(),
            c.poly_admin_secret@ == Seq::<char>::empty(),
            c.tick_seconds == 3,
            c.market_limit == 50,
    {
        Config {
            onboarded: false,
            poly_url: String::from_str(DEFAULT_POLY_URL),
            leaderboard_url: String::from_str(DEFAULT_LEADERBOARD_URL),
            poly_api_key: String::new(),
            poly_admin_secret: String::new(),
            tick_seconds: 3,
            market_limit: 50,
        }
    }
}

/// `v` clamped into `[lo, hi]`.
pub open spec fn clamp_int(v: int, lo: int, hi: int) -> int {
    if v < lo {
        lo
    } else if v > hi {
        hi
    } else {
        v
    }
}

impl Config {
    /// Clamp the numeric fields into their allowed ranges.
    pub fn clamp(&mut self)
        ensures
            final(self).tick_seconds == clamp_int(
                old(self).tick_seconds as int,
                TICK_SECONDS_MIN as int,
                TICK_SECONDS_MAX as int,
            ),
            final(self).market_limit == clamp_int(
                old(self).market_limit as int,
                MARKET_LIMIT_MIN as int,
                MARKET_LIMIT_MAX as int,
            ),
            final(self).onboarded == old(self).onboarded,
            final(self).poly_url == old(self).poly_url,
            final(self).leaderboard_url == old(self).leaderboard_url,
            final(self).poly_api_key == old(self).poly_api_key,
            final(self).poly_admin_secret == old(self).poly_admin_secret,
    {
        if self.tick_seconds < TICK_SECONDS_MIN {
            self.tick_seconds = TICK_SECONDS_MIN;
        } else if self.tick_seconds > TICK_SECONDS_MAX {
            self.tick_seconds = TICK_SECONDS_MAX;
        }
        if self.market_limit < MARKET_LIMIT_MIN {
            self.market_limit = MARKET_LIMIT_MIN;
        } else if self.market_limit > MARKET_LIMIT_MAX {
            self.market_limit = MARKET_LIMIT_MAX;
        }
    }

    /// True when trading endpoints can be called (an API key is set).
    pub fn has_poly_creds(&self) -> (r: bool)
        ensures
            r == (self.poly_api_key@.len() > 0),
    {
        !self.poly_api_key.as_str().is_empty()
    }

    /// Fill an empty admin secret from the environment: `candidates` are
    /// the values of the variables consulted, in priority order (the
    /// admin-console convention: `PREDLAB_ADMIN_SECRET`, then
    /// `ADMIN_SECRET`); the first non-empty one wins. A secret already set
    /// is kept.
    pub fn apply_env_fallbacks(&mut self, candidates: &[Option<String>])
        ensures
            old(self).poly_admin_secret@.len() > 0 ==> final(self).poly_admin_secret
                == old(self).poly_admin_secret,
            old(self).poly_admin_secret@.len() == 0 ==> final(self).poly_admin_secret@
                == first_nonempty(candidates@),
            final(self).onboarded == old(self).onboarded,
            final(self).poly_url == old(self).poly_url,
            final(self).leaderboard_url == old(self).leaderboard_url,
            final(self).poly_api_key == old(self).poly_api_key,
            final(self).tick_seconds == old(self).tick_seconds,
            final(self).market_limit == old(self).market_limit,
    {
        if !self.poly_admin_secret.as_str().is_empty() {
            return;
        }
        let mut i: usize = 0;
        proof {
            assert(candidates@.skip(0) =~= candidates@);
        }
        while i < candidates.len()
            invariant
                i <= candidates@.len(),
                self.poly_admin_secret@.len() == 0,
                old(self).poly_admin_secret@.len() == 0,
                first_nonempty(candidates@) == first_nonempty(candidates@.skip(i as int)),
                self.onboarded == old(self).onboarded,
                self.poly_url == old(self).poly_url,
                self.leaderboard_url == old(self).leaderboard_url,
                self.poly_api_key == old(self).poly_api_key,
                self.tick_seconds == old(self).tick_seconds,
                self.market_limit == old(self).market_limit,
            decreases candidates@.len() - i,
        {
            proof {
                assert(candidates@.skip(i as int).drop_first() =~= candidates@.skip(i + 1));
                assert(candidates@.skip(i as int)[0] == candidates@[i as int]);
            }
            match &candidates[i] {
                Some(v) => {
                    if !v.as_str().is_empty() {
                        self.poly_admin_secret = v.clone();
                        return;
                    }
                },
                None => {},
            }
            i = i + 1;
        }
        proof {
            assert(candidates@.skip(i as int) =~= Seq::<Option<String>>::empty());
        }
    }

    /// The configuration as loaded from a file: environment fallbacks
    /// applied, then the numbers clamped.
    pub fn from_loaded(raw: Config, env_secrets: &[Option<String>]) -> (c: Config)
        ensures
            c.onboarded == raw.onboarded,
            c.poly_url == raw.poly_url,
            c.leaderboard_url == raw.leaderboard_url,
            c.poly_api_key == raw.poly_api_key,
            raw.poly_admin_secret@.len() > 0 ==> c.poly_admin_secret == raw.poly_admin_secret,
            raw.poly_admin_secret@.len() == 0 ==> c.poly_admin_secret@ == first_nonempty(
                env_secrets@,
            ),
            c.tick_seconds == clamp_int(
                raw.tick_seconds as int,
                TICK_SECONDS_MIN as int,
                TICK_SECONDS_MAX as int,
            ),
            c.market_limit == clamp_int(
                raw.market_limit as int,
                MARKET_LIMIT_MIN as int,
                MARKET_LIMIT_MAX as int,
            ),
    {
        let mut c = raw;
        c.apply_env_fallbacks(env_secrets);
        c.clamp();
        c
    }
}

/// The first present, non-empty value, or the empty text.
pub open spec fn first_nonempty(vs: Seq<Option<String>>) -> Seq<char>
    decreases vs.len(),
{
    if vs.len() == 0 {
        Seq::empty()
    } else {
        match vs[0] {
            Some(v) => if v@.len() > 0 {
                v@
            } else {
                first_nonempty(vs.drop_first())
            },
            None => first_nonempty(vs.drop_first()),
        }
    }
}

/// Clamping is idempotent and always lands inside the allowed ranges.
pub proof fn lemma_clamp_settles(tick: int, limit: int)
    ensures
        TICK_SECONDS_MIN <= clamp_int(tick, TICK_SECONDS_MIN as int, TICK_SECONDS_MAX as int)
            <= TICK_SECONDS_MAX,
        MARKET_LIMIT_MIN <= clamp_int(limit, MARKET_LIMIT_MIN as int, MARKET_LIMIT_MAX as int)
            <= MARKET_LIMIT_MAX,
        clamp_int(
            clamp_int(tick, TICK_SECONDS_MIN as int, TICK_SECONDS_MAX as int),
            TICK_SECONDS_MIN as int,
            TICK_SECONDS_MAX as int,
        ) == clamp_int(tick, TICK_SECONDS_MIN as int, TICK_SECONDS_MAX as int),
        clamp_int(
            clamp_int(limit, MARKET_LIMIT_MIN as int, MARKET_LIMIT_MAX as int),
            MARKET_LIMIT_MIN as int,
            MARKET_LIMIT_MAX as int,
        ) == clamp_int(limit, MARKET_LIMIT_MIN as int, MARKET_LIMIT_MAX as int),
        TICK_SECONDS_MIN <= tick <= TICK_SECONDS_MAX ==> clamp_int(
            tick,
            TICK_SECONDS_MIN as int,
            TICK_SECONDS_MAX as int,
        ) == tick,
        MARKET_LIMIT_MIN <= limit <= MARKET_LIMIT_MAX ==> clamp_int(
            limit,
            MARKET_LIMIT_MIN as int,
            MARKET_LIMIT_MAX as int,
        ) == limit,
{
}

/// Order side, `"BUY"` / `"SELL"` on the wire.
#[derive(Debug, Clone, Copy, PartialEq, Eq, Structural)]
pub enum OrderSide {
    Buy,
    Sell,
}

impl OrderSide {
    /// Wire representation for the sim's `POST /order`.
    pub fn as_wire(self) -> (s: &'static str)
        ensures
            s@ == (match self {
                OrderSide::Buy => "BUY"@,
                OrderSide::Sell => "SELL"@,
            }),
    {
        match self {
            OrderSide::Buy => "BUY",
            OrderSide::Sell => "SELL",
        }
    }
}

/// Account role in the sim's member/admin/owner hierarchy.
#[derive(Debug, Clone, Copy, PartialEq, Eq, Structural, Default)]
pub enum Role {
    #[default]
    Member,
    Admin,
    Owner,
}

/// The wire name of a role (also its label).
pub open spec fn role_wire(r: Role) -> Seq<char> {
    match r {
        Role::Member => "member"@,
        Role::Admin => "admin"@,
        Role::Owner => "owner"@,
    }
}

impl Role {
    /// Wire representation for the admin endpoints' `role` parameter.
    pub fn as_wire(self) -> (s: &'static str)
        ensures
            s@ == role_wire(self),
    {
        match self {
            Role::Member => "member",
            Role::Admin => "admin",
            Role::Owner => "owner",
        }
    }

    /// Human label for pickers.
    pub fn label(self) -> (s: &'static str)
        ensures
            s@ == role_wire(self),
    {
        match self {
            Role::Member => "member",
            Role::Admin => "admin",
            Role::Owner => "owner",
        }
    }
}

/// Health of the simulator connection.
#[derive(Debug, Clone, PartialEq, Eq)]
pub enum ConnState {
    /// Not yet checked.
    Unknown,
    /// Healthy; carries the reported server version.
    Connected(String),
    /// Last check failed; carries the error text.
    Error(String),
}

/// Which command an action result refers to.
#[derive(Debug, Clone, Copy, PartialEq, Eq, Structural)]
pub enum ActionKind {
    RefreshAll,
    SetSearch,
    SetMarketsOffset,
    SelectMarket,
    PlaceOrder,
    CancelOrder,
    FetchProfile,
    FetchAdminUser,
    IssueKey,
    SetRole,
    RevokeKey,
    ResetBalance,
    DeleteUser,
    ForceResolve,
    RefreshLeaderboard,
}

/// Engine to screen.
#[derive(Debug, Clone)]
pub enum UiMessage {
    /// Connection status of the sim, refreshed every tick.
    Status { poly: ConnState },
    /// Outcome of a command, for toasts.
    ActionResult { kind: ActionKind, ok: bool, detail: String },
    /// Admin key issuance result; the key is shown once and never stored.
    KeyIssued { username: String, role: String, api_key: String },
}

/// Short label of an action, used as the toast prefix.
pub open spec fn kind_text(kind: ActionKind) -> Seq<char> {
    match kind {
        ActionKind::RefreshAll => "refresh"@,
        ActionKind::SetSearch => "search"@,
        ActionKind::SetMarketsOffset => "page"@,
        ActionKind::SelectMarket => "select market"@,
        ActionKind::PlaceOrder => "order"@,
        ActionKind::CancelOrder => "cancel"@,
        ActionKind::FetchProfile => "profile"@,
        ActionKind::FetchAdminUser => "member detail"@,
        ActionKind::IssueKey => "issue key"@,
        ActionKind::SetRole => "set role"@,
        ActionKind::RevokeKey => "revoke key"@,
        ActionKind::ResetBalance => "reset balance"@,
        ActionKind::DeleteUser => "delete user"@,
        ActionKind::ForceResolve => "force resolve"@,
        ActionKind::RefreshLeaderboard => "leaderboard"@,
    }
}

/// Short human label for an action, used as the toast prefix.
pub fn kind_label(kind: ActionKind) -> (s: &'static str)
    ensures
        s@ == kind_text(kind),
{
    match kind {
        ActionKind::RefreshAll => "refresh",
        ActionKind::SetSearch => "search",
        ActionKind::SetMarketsOffset => "page",
        ActionKind::SelectMarket => "select market",
        ActionKind::PlaceOrder => "order",
        ActionKind::CancelOrder => "cancel",
        ActionKind::FetchProfile => "profile",
        ActionKind::FetchAdminUser => "member detail",
        ActionKind::IssueKey => "issue key",
        ActionKind::SetRole => "set role",
        ActionKind::RevokeKey => "revoke key",
        ActionKind::ResetBalance => "reset balance",
        ActionKind::DeleteUser => "delete user",
        ActionKind::ForceResolve => "force resolve",
        ActionKind::RefreshLeaderboard => "leaderboard",
    }
}

/// What went wrong talking to a server.
#[derive(Debug)]
pub enum ApiError {
    /// Could not reach the server (DNS, refused, timeout, TLS, ...).
    Transport(String),
    /// The server answered with a non-success status.
    Status { status: u16, body: String },
    /// The response body did not match the expected shape.
    Decode(String),
}

/// The text of an error, as it is shown to the user.
pub open spec fn api_error_text(e: ApiError) -> Seq<char> {
    match e {
        ApiError::Transport(m) => "transport: "@ + m@,
        ApiError::Status { status, body } => "HTTP "@ + crate::text::dec(status as nat) + ": "@ + body@,
        ApiError::Decode(m) => "decode: "@ + m@,
    }
}

impl ApiError {
    /// The HTTP status code, when the failure was a non-2xx response.
    pub fn status(&self) -> (r: Option<u16>)
        ensures
            r == (match self {
                ApiError::Status { status, .. } => Some(*status),
                _ => None,
            }),
    {
        match self {
            ApiError::Status { status, .. } => Some(*status),
            _ => None,
        }
    }

    /// The error as shown to the user (`"HTTP 403: forbidden"`).
    pub fn message(&self) -> (s: String)
        ensures
            s@ == api_error_text(*self),
    {
        let mut s = String::new();
        match self {
            ApiError::Transport(m) => {
                push_str(&mut s, "transport: ");
                push_str(&mut s, m.as_str());
            },
            ApiError::Status { status, body } => {
                push_str(&mut s, "HTTP ");
                push_dec(&mut s, *status as u128);
                push_str(&mut s, ": ");
                push_str(&mut s, body.as_str());
            },
            ApiError::Decode(m) => {
                push_str(&mut s, "decode: ");
                push_str(&mut s, m.as_str());
            },
        }
        s
    }
}

/// A reply with this status carries data; any other is an error.
pub open spec fn is_success(status: u16) -> bool {
    200 <= status <= 299
}

/// The error for a reply, if its status is not a success: the status and
/// the body are kept.
pub fn status_error(status: u16, body: String) -> (r: Option<ApiError>)
    ensures
        is_success(status) ==> r is None,
        !is_success(status) ==> (r matches Some(ApiError::Status { status: s, body: b }) && s
            == status && b == body),
{
    if 200 <= status && status <= 299 {
        None
    } else {
        Some(ApiError::Status { status, body })
    }
}

/// `GET /health` shape.
#[derive(Debug, Clone, Default)]
pub struct Health {
    pub status: String,
    pub version: String,
    pub environment: String,
}

/// One price level from `GET /book` (decimal strings, full precision).
#[derive(Debug, Clone, Default, PartialEq)]
pub struct PolyBookLevel {
    pub price: String,
    pub size: String,
}

/// `GET /book?token_id=` response.
#[derive(Debug, Clone, Default, PartialEq)]
pub struct PolyBook {
    pub bids: Vec<PolyBookLevel>,
    pub asks: Vec<PolyBookLevel>,
    pub asset_id: Option<String>,
    pub timestamp: Option<String>,
}

/// `GET /midpoint?token_id=` response.
#[derive(Debug, Clone, Default)]
pub struct Midpoint {
    pub midpoint: String,
}

/// `GET /spread?token_id=` response.
#[derive(Debug, Clone, Default)]
pub struct Spread {
    pub spread: String,
}

/// `GET /last-trade-price?token_id=` response.
#[derive(Debug, Clone, Default)]
pub struct LastTradePrice {
    pub last_trade_price: String,
}

/// `POST /order` response. The sim answers HTTP 200 even on failure, so
/// callers check `success` / `error_msg`.
#[derive(Debug, Clone, Default)]
pub struct PolyOrderResponse {
    pub success: bool,
    pub order_id: String,
    pub status: String,
    pub error_msg: Option<String>,
}

/// `DELETE /order` response.
#[derive(Debug, Clone, Default)]
pub struct PolyCancelResponse {
    pub success: bool,
    pub order_id: String,
    pub status: String,
}

/// `POST /admin/create-paper-key` response.
#[derive(Debug, Clone, Default)]
pub struct PaperKey {
    pub username: String,
    pub role: String,
    pub api_key: String,
    pub secret: String,
    pub note: String,
}

/// `POST /admin/revoke-key` response.
#[derive(Debug, Clone, Default)]
pub struct RevokedKey {
    pub revoked: String,
    pub keys_disabled: u32,
}

/// Market context (midpoint / spread) for the selected token.
#[derive(Debug, Clone, Default, PartialEq)]
pub struct SelectedQuotes {
    pub midpoint: String,
    pub spread: String,
}

/// Last error per snapshot section (`None` means the last refresh
/// succeeded).
#[derive(Debug, Clone, Default)]
pub struct SectionErrors {
    pub markets: Option<String>,
    pub book: Option<String>,
    pub portfolio: Option<String>,
    pub leaderboard: Option<String>,
    pub roster: Option<String>,
    pub profile: Option<String>,
}

/// One transient notification.
pub struct Toast {
    ok: bool,
    text: String,
    born: Instant,
}

impl Toast {
    pub fn new(ok: bool, text: String) -> (t: Toast)
        ensures
            t.ok() == ok,
            t.text_view() == text@,
    {
        Toast { ok, text, born: now() }
    }

    /// Whether the toast reports a success.
    pub closed spec fn ok(&self) -> bool {
        self.ok
    }

    /// The toast's text.
    pub closed spec fn text_view(&self) -> Seq<char> {
        self.text@
    }

    /// Whether the toast reports a success.
    pub fn is_ok(&self) -> (r: bool)
        ensures
            r == self.ok(),
    {
        self.ok
    }

    /// The toast's text.
    pub fn text(&self) -> (r: &str)
        ensures
            r@ == self.text_view(),
    {
        self.text.as_str()
    }

    /// How long the toast has been on screen.
    pub fn age(&self) -> Duration {
        elapsed(&self.born)
    }
}

/// How long the markets search waits after the last keystroke, in ms.
pub const SEARCH_DEBOUNCE_MS: u128 = 400;

/// The market the user picked, with its outcome/token pairs.
#[derive(Debug, Clone)]
pub struct Selection {
    pub market_id: String,
    pub question: String,
    /// `(outcome name, clob token id)` pairs: index 0 is YES, 1 is NO.
    pub tokens: Vec<(String, String)>,
    pub outcome_idx: usize,
}

/// The plain value of a token pair.
pub open spec fn pair_view(p: (String, String)) -> (Seq<char>, Seq<char>) {
    (p.0@, p.1@)
}

/// Outcome/token pairs of a market: names zipped with token ids; when no
/// pair results, the ids numbered `Outcome 1`, `Outcome 2`, ...
pub open spec fn market_tokens(outcomes: Seq<Seq<char>>, ids: Seq<Seq<char>>) -> Seq<(Seq<char>, Seq<char>)> {
    let n = if outcomes.len() <= ids.len() { outcomes.len() } else { ids.len() };
    if n > 0 {
        Seq::new(n, |i: int| (outcomes[i], ids[i]))
    } else {
        Seq::new(ids.len(), |i: int| ("Outcome "@ + crate::text::dec((i + 1) as nat), ids[i]))
    }
}

/// The texts of a sequence of strings.
pub open spec fn texts(s: Seq<String>) -> Seq<Seq<char>> {
    s.map_values(|x: String| x@)
}

impl Selection {
    /// The selection of a market's first outcome: `token_ids` are the
    /// market's CLOB token ids, if it published any.
    pub fn for_market(
        market_id: String,
        question: String,
        outcomes: &[String],
        token_ids: Option<Vec<String>>,
    ) -> (s: Selection)
        ensures
            s.market_id == market_id,
            s.question == question,
            s.outcome_idx == 0,
            s.tokens@.map_values(|p: (String, String)| pair_view(p)) == market_tokens(
                texts(outcomes@),
                match token_ids {
                    Some(v) => texts(v@),
                    None => Seq::empty(),
                },
            ),
    {
        let ids: Vec<String> = match token_ids {
            Some(v) => v,
            None => Vec::new(),
        };
        let ghost want = market_tokens(texts(outcomes@), texts(ids@));
        let n = if outcomes.len() <= ids.len() { outcomes.len() } else { ids.len() };
        let mut tokens: Vec<(String, String)> = Vec::new();
        let mut i: usize = 0;
        while i < n
            invariant
                n <= outcomes@.len(),
                n <= ids@.len(),
                n == (if outcomes@.len() <= ids@.len() { outcomes@.len() } else { ids@.len() }),
                i <= n,
                tokens@.len() == i,
                forall|j: int| 0 <= j < i ==> #[trigger] pair_view(tokens@[j]) == (outcomes@[j]@, ids@[j]@),
            decreases n - i,
        {
            tokens.push((outcomes[i].clone(), ids[i].clone()));
            i = i + 1;
        }
        if n == 0 {
            let mut k: usize = 0;
            while k < ids.len()
                invariant
                    n == 0,
                    k <= ids@.len(),
                    tokens@.len() == k,
                    forall|j: int| 0 <= j < k ==> #[trigger] pair_view(tokens@[j]) == (
                        "Outcome "@ + crate::text::dec((j + 1) as nat),
                        ids@[j]@,
                    ),
                decreases ids@.len() - k,
            {
                let mut name = String::from_str("Outcome ");
                push_dec(&mut name, (k + 1) as u128);
                tokens.push((name, ids[k].clone()));
                k = k + 1;
            }
        }
        proof {
            assert(tokens@.map_values(|p: (String, String)| pair_view(p)) =~= want);
        }
        Selection { market_id, question, tokens, outcome_idx: 0 }
    }

    /// The token id of the chosen outcome, if there is one.
    pub fn token_id(&self) -> (r: Option<&str>)
        ensures
            self.outcome_idx < self.tokens@.len() ==> (r matches Some(t) && t@
                == self.tokens@[self.outcome_idx as int].1@),
            self.outcome_idx >= self.tokens@.len() ==> r is None,
    {
        if self.outcome_idx < self.tokens.len() {
            Some(self.tokens[self.outcome_idx].1.as_str())
        } else {
            None
        }
    }

    /// The name of the chosen outcome, or `?`.
    pub fn outcome_name(&self) -> (r: &str)
        ensures
            self.outcome_idx < self.tokens@.len() ==> r@ == self.tokens@[self.outcome_idx as int].0@,
            self.outcome_idx >= self.tokens@.len() ==> r@ == "?"@,
    {
        if self.outcome_idx < self.tokens.len() {
            self.tokens[self.outcome_idx].0.as_str()
        } else {
            "?"
        }
    }
}

/// The markets screen's search and paging state.
pub struct MarketsState {
    /// The search box's text.
    pub search: String,
    /// The last query sent to the engine.
    pub sent_search: String,
    /// When the search box last changed, while a search is pending.
    pub pending_since: Option<Instant>,
    /// Current `/markets` pagination offset (page size = market limit).
    pub offset: u32,
    pub selected: Option<Selection>,
}

/// One debounce decision on the markets search: from state `a`, with
/// `quiet` telling whether the debounce interval has passed since the last
/// keystroke, the query sent (`r`) and the state `b` that follow.
pub open spec fn debounce_step(a: MarketsState, quiet: bool, r: Option<String>, b: MarketsState) -> bool {
    &&& b.search == a.search
    &&& b.selected == a.selected
    &&& if a.pending_since is None || !quiet {
        &&& r is None
        &&& b.sent_search == a.sent_search
        &&& b.pending_since == a.pending_since
        &&& b.offset == a.offset
    } else if a.search@ == a.sent_search@ {
        &&& r is None
        &&& b.pending_since is None
        &&& b.sent_search == a.sent_search
        &&& b.offset == a.offset
    } else {
        &&& r matches Some(q) && q@ == a.search@
        &&& b.pending_since is None
        &&& b.sent_search@ == a.search@
        &&& b.offset == 0
    }
}

impl MarketsState {
    pub fn new() -> (m: MarketsState)
        ensures
            m.search@ == Seq::<char>::empty(),
            m.sent_search@ == Seq::<char>::empty(),
            m.pending_since is None,
            m.offset == 0,
            m.selected is None,
    {
        MarketsState {
            search: String::new(),
            sent_search: String::new(),
            pending_since: None,
            offset: 0,
            selected: None,
        }
    }

    /// The debounced search once the wait is over (`quiet` tells whether
    /// the debounce interval has passed since the last keystroke): the
    /// query to send when a search is pending and the text changed since
    /// the last one sent, which also resets paging.
    pub fn due_search_after(&mut self, quiet: bool) -> (r: Option<String>)
        ensures
            debounce_step(*old(self), quiet, r, *final(self)),
            (old(self).pending_since is None || !quiet) ==> r is None && final(self).search
                == old(self).search && final(self).sent_search == old(self).sent_search
                && final(self).pending_since == old(self).pending_since && final(self).offset
                == old(self).offset,
            (old(self).pending_since is Some && quiet) ==> {
                &&& final(self).pending_since is None
                &&& final(self).search == old(self).search
                &&& (old(self).search@ == old(self).sent_search@ ==> r is None
                    && final(self).sent_search == old(self).sent_search && final(self).offset
                    == old(self).offset)
                &&& (old(self).search@ != old(self).sent_search@ ==> (r matches Some(q) && q@
                    == old(self).search@ && final(self).sent_search@ == old(self).search@
                    && final(self).offset == 0))
            },
    {
        if self.pending_since.is_none() || !quiet {
            return None;
        }
        self.pending_since = None;
        if self.search == self.sent_search {
            return None;
        }
        self.sent_search = self.search.clone();
        self.offset = 0;
        Some(self.search.clone())
    }

    /// The debounced search: the query to send once the debounce interval
    /// has passed since the last keystroke and the query actually changed.
    /// Whether the interval has passed is read from the clock, so what
    /// holds is what [`MarketsState::due_search_after`] gives for either
    /// reading.
    pub fn due_search(&mut self) -> (r: Option<String>)
        ensures
            debounce_step(*old(self), false, r, *final(self)) || debounce_step(
                *old(self),
                true,
                r,
                *final(self),
            ),
            old(self).pending_since is None ==> r is None && final(self).search == old(self).search
                && final(self).sent_search == old(self).sent_search && final(self).pending_since
                is None && final(self).offset == old(self).offset,
            (r matches Some(q) ==> q@ == old(self).search@ && old(self).search@
                != old(self).sent_search@ && final(self).sent_search@ == old(self).search@
                && final(self).offset == 0 && final(self).pending_since is None),
    {
        let quiet = match &self.pending_since {
            Some(t) => as_millis(&elapsed(t)) >= SEARCH_DEBOUNCE_MS,
            None => false,
        };
        self.due_search_after(quiet)
    }

    /// Whether a typed search is waiting to be sent.
    pub fn search_pending(&self) -> (r: bool)
        ensures
            r == (self.pending_since is Some),
    {
        self.pending_since.is_some()
    }
}

/// The page before `offset`, when there is one: back by `page` markets,
/// stopping at the first.
pub fn prev_page(offset: u32, page: u32) -> (r: Option<u32>)
    ensures
        offset == 0 ==> r is None,
        offset > 0 ==> r == Some(if offset >= page { (offset - page) as u32 } else { 0u32 }),
{
    if offset == 0 {
        None
    } else if offset >= page {
        Some(offset - page)
    } else {
        Some(0)
    }
}

/// The page after `offset`, when there is one: a page that came back
/// short (`shown` below `page`) was the catalog's last.
pub fn next_page(offset: u32, page: u32, shown: usize) -> (r: Option<u32>)
    requires
        offset + page <= u32::MAX,
    ensures
        shown >= page ==> r == Some((offset + page) as u32),
        shown < page ==> r is None,
{
    if shown as u64 >= page as u64 {
        Some(offset + page)
    } else {
        None
    }
}

/// How long a destructive button stays armed after its first click, in ms.
pub const CONFIRM_WINDOW_MS: u128 = 5000;

/// Whether the delete button of `username` is armed: it was the member
/// last armed, less than the confirm window ago (`armed` holds that member
/// and the milliseconds since), so the next click deletes.
pub fn delete_armed(armed: Option<(&str, u128)>, username: &str) -> (r: bool)
    ensures
        r == (armed matches Some((u, ms)) && u@ == username@ && ms < CONFIRM_WINDOW_MS),
{
    match armed {
        Some((u, ms)) => ms < CONFIRM_WINDOW_MS && text_is(to_chars(u).as_slice(), username),
        None => false,
    }
}

/// Whether "reset all balances" is armed: its first click came less than
/// the confirm window ago (`armed_ms` is how long ago, if it came).
pub fn reset_all_armed(armed_ms: Option<u128>) -> (r: bool)
    ensures
        r == (armed_ms matches Some(ms) && ms < CONFIRM_WINDOW_MS),
{
    match armed_ms {
        Some(ms) => ms < CONFIRM_WINDOW_MS,
        None => false,
    }
}

/// First-run wizard state.
pub struct Wizard {
    pub step: usize,
    pub error: Option<String>,
    /// Whether "Test connection" was pressed on the servers step.
    pub test_sent: bool,
}

impl Wizard {
    pub fn new() -> (w: Wizard)
        ensures
            w.step == 0,
            w.error is None,
            !w.test_sent,
    {
        Wizard { step: 0, error: None, test_sent: false }
    }
}

/// Loose per-step validation of the wizard: only empty server URLs on the
/// servers step (step 1) block progress.
pub fn validate_step(step: usize, poly_url: &str, leaderboard_url: &str) -> (r: Option<String>)
    ensures
        (step == 1 && (trim_text(poly_url@).len() == 0 || trim_text(leaderboard_url@).len() == 0))
            ==> (r matches Some(m) && m@ == "both server URLs are required"@),
        !(step == 1 && (trim_text(poly_url@).len() == 0 || trim_text(leaderboard_url@).len() == 0))
            ==> r is None,
{
    if step == 1 {
        let a = trim_chars(to_chars(poly_url).as_slice());
        let b = trim_chars(to_chars(leaderboard_url).as_slice());
        if a.len() == 0 || b.len() == 0 {
            return Some(String::from_str("both server URLs are required"));
        }
    }
    None
}

/// The medal shown beside the top three ranks.
pub fn medal(rank: usize) -> (s: &'static str)
    ensures
        s@ == (if rank == 1 {
            "🥇 "@
        } else if rank == 2 {
            "🥈 "@
        } else if rank == 3 {
            "🥉 "@
        } else {
            ""@
        }),
{
    if rank == 1 {
        "🥇 "
    } else if rank == 2 {
        "🥈 "
    } else if rank == 3 {
        "🥉 "
    } else {
        ""
    }
}

/// ASCII lowercase of a text (other chars unchanged).
pub open spec fn ascii_lower(s: Seq<char>) -> Seq<char> {
    s.map_values(|c: char| if 65 <= (c as int) <= 90 { ((c as int) + 32) as char } else { c })
}

/// Whether an order in this status can still be cancelled: open, partial,
/// resting or pending (ASCII case ignored).
pub open spec fn cancellable_status(status: Seq<char>) -> bool {
    let s = ascii_lower(status);
    has_infix(s, "open"@) || has_infix(s, "partial"@) || has_infix(s, "resting"@) || has_infix(
        s,
        "pending"@,
    )
}

fn ascii_lower_chars(s: &str) -> (r: Vec<char>)
    ensures
        r@ == ascii_lower(s@),
{
    let cs = to_chars(s);
    let mut out: Vec<char> = Vec::new();
    let mut i: usize = 0;
    while i < cs.len()
        invariant
            i <= cs@.len(),
            cs@ == s@,
            out@ == ascii_lower(s@).take(i as int),
        decreases cs@.len() - i,
    {
        let c = cs[i];
        let l = if 'A' <= c && c <= 'Z' {
            (((c as u32) + 32) as u8) as char
        } else {
            c
        };
        out.push(l);
        i = i + 1;
        proof {
            assert(out@ =~= ascii_lower(s@).take(i as int));
        }
    }
    proof {
        assert(ascii_lower(s@).take(i as int) =~= ascii_lower(s@));
    }
    out
}

/// True when an order in this status can still be cancelled.
pub fn cancellable(status: &str) -> (r: bool)
    ensures
        r == cancellable_status(status@),
{
    let s = ascii_lower_chars(status);
    contains_chars(s.as_slice(), to_chars("open").as_slice()) || contains_chars(
        s.as_slice(),
        to_chars("partial").as_slice(),
    ) || contains_chars(s.as_slice(), to_chars("resting").as_slice()) || contains_chars(
        s.as_slice(),
        to_chars("pending").as_slice(),
    )
}

/// Whether the admin screen is usable: a master secret is configured, or
/// the engine's admin probe succeeded with the user's own key.
pub fn unlocked(admin_secret: &str, admin_ok: Option<bool>) -> (r: bool)
    ensures
        r == (admin_secret@.len() > 0 || admin_ok == Some(true)),
{
    !admin_secret.is_empty() || match admin_ok {
        Some(b) => b,
        None => false,
    }
}

/// What the engine does about the admin roster on a poll.
#[derive(Debug, Clone, Copy, PartialEq, Eq, Structural)]
pub enum RosterPlan {
    /// No credentials at all: the admin screen is locked, nothing fetched.
    Lock,
    /// A member key already found non-admin (no master secret): skip.
    Skip,
    /// Fetch the roster; the answer also probes admin rank.
    Probe,
}

/// The roster decision: with no credentials lock; with only a key already
/// known to lack admin rank skip; otherwise probe.
pub fn roster_plan(admin_secret_set: bool, has_key: bool, admin_ok: Option<bool>) -> (p: RosterPlan)
    ensures
        !(admin_secret_set || has_key) ==> p == RosterPlan::Lock,
        (admin_secret_set || has_key) && !admin_secret_set && admin_ok == Some(false) ==> p
            == RosterPlan::Skip,
        (admin_secret_set || has_key) && !(!admin_secret_set && admin_ok == Some(false)) ==> p
            == RosterPlan::Probe,
{
    if !(admin_secret_set || has_key) {
        return RosterPlan::Lock;
    }
    let known_member = match admin_ok {
        Some(b) => !b,
        None => false,
    };
    if !admin_secret_set && known_member {
        RosterPlan::Skip
    } else {
        RosterPlan::Probe
    }
}

/// Whether a failed roster fetch means "not an admin" (401 or 403, the
/// expected answer for member keys: the screen locks, no error is shown)
/// rather than a real error.
pub fn roster_denied(e: &ApiError) -> (r: bool)
    ensures
        r == (match *e {
            ApiError::Status { status, .. } => status == 401 || status == 403,
            _ => false,
        }),
{
    match e.status() {
        Some(s) => s == 401 || s == 403,
        None => false,
    }
}

/// What a roster refresh does to the shared roster.
pub enum RosterChange<R> {
    /// Leave it as it is.
    Keep,
    /// Replace it with the rows fetched.
    Replace(R),
    /// Empty it (the key has no admin rank).
    Clear,
}

/// The outcome of a roster refresh: the new admin-rank flag (when it
/// changes), the roster change, the new roster error (`None` keeps the
/// old one, `Some(None)` clears it) and whether fresh rows arrived.
pub struct RosterStep<R> {
    pub admin_ok: Option<Option<bool>>,
    pub roster: RosterChange<R>,
    pub error: Option<Option<String>>,
    pub ok: bool,
}

/// A roster refresh, from the plan and (when the plan probed) what the
/// fetch returned:
/// - no credentials: admin rank is known absent, nothing else changes;
/// - a member key already found non-admin: nothing changes;
/// - rows fetched: admin rank confirmed, roster replaced, error cleared;
/// - refused with 401/403: admin rank known absent, roster emptied, no
///   error shown (the expected answer for member keys);
/// - any other failure: its text becomes the roster error.
pub fn roster_step<R>(plan: RosterPlan, fetched: Option<Result<R, ApiError>>) -> (st: RosterStep<R>)
    requires
        (plan == RosterPlan::Probe) == (fetched is Some),
    ensures
        plan == RosterPlan::Lock ==> st.admin_ok == Some(Some(false)) && st.roster is Keep
            && st.error is None && !st.ok,
        plan == RosterPlan::Skip ==> st.admin_ok is None && st.roster is Keep && st.error is None
            && !st.ok,
        plan == RosterPlan::Probe ==> match fetched.unwrap() {
            Ok(rows) => st.admin_ok == Some(Some(true)) && st.roster == RosterChange::Replace(rows)
                && st.error == Some(None::<String>) && st.ok,
            Err(e) => if (e matches ApiError::Status { status, .. } && (status == 401 || status
                == 403)) {
                st.admin_ok == Some(Some(false)) && st.roster is Clear && st.error == Some(
                    None::<String>,
                ) && !st.ok
            } else {
                st.admin_ok is None && st.roster is Keep && (st.error matches Some(Some(m)) && m@
                    == api_error_text(e)) && !st.ok
            },
        },
{
    match plan {
        RosterPlan::Lock => RosterStep { admin_ok: Some(Some(false)), roster: RosterChange::Keep, error: None, ok: false },
        RosterPlan::Skip => RosterStep { admin_ok: None, roster: RosterChange::Keep, error: None, ok: false },
        RosterPlan::Probe => match fetched {
            Some(Ok(rows)) => RosterStep {
                admin_ok: Some(Some(true)),
                roster: RosterChange::Replace(rows),
                error: Some(None),
                ok: true,
            },
            Some(Err(e)) => if roster_denied(&e) {
                RosterStep { admin_ok: Some(Some(false)), roster: RosterChange::Clear, error: Some(None), ok: false }
            } else {
                RosterStep { admin_ok: None, roster: RosterChange::Keep, error: Some(Some(e.message())), ok: false }
            },
            None => RosterStep { admin_ok: None, roster: RosterChange::Keep, error: None, ok: false },
        },
    }
}

/// `"order {id} {status}"`.
pub open spec fn order_detail(order_id: Seq<char>, status: Seq<char>) -> Seq<char> {
    "order "@ + order_id + " "@ + status
}

fn order_line(order_id: &str, status: &str) -> (s: String)
    ensures
        s@ == order_detail(order_id@, status@),
{
    let mut s = String::from_str("order ");
    push_str(&mut s, order_id);
    push_str(&mut s, " ");
    push_str(&mut s, status);
    s
}

/// The result of placing an order. The sim answers HTTP 200 even when it
/// rejects one, so success is its `success` flag; a rejection shows the
/// sim's message, or `order rejected`.
pub fn order_result(res: &PolyOrderResponse) -> (r: (bool, String))
    ensures
        r.0 == res.success,
        res.success ==> r.1@ == order_detail(res.order_id@, res.status@),
        !res.success ==> r.1@ == (match res.error_msg {
            Some(m) => m@,
            None => "order rejected"@,
        }),
{
    if res.success {
        (true, order_line(res.order_id.as_str(), res.status.as_str()))
    } else {
        match &res.error_msg {
            Some(m) => (false, m.clone()),
            None => (false, String::from_str("order rejected")),
        }
    }
}

/// The result of cancelling an order.
pub fn cancel_result(res: &PolyCancelResponse) -> (r: (bool, String))
    ensures
        r.0 == res.success,
        r.1@ == order_detail(res.order_id@, res.status@),
{
    (res.success, order_line(res.order_id.as_str(), res.status.as_str()))
}

/// The toast detail after a balance reset: the member, or all members.
pub fn reset_detail(username: Option<&str>) -> (s: String)
    ensures
        s@ == "reset "@ + (match username {
            Some(u) => u@,
            None => "ALL members"@,
        }),
{
    let mut s = String::from_str("reset ");
    match username {
        Some(u) => push_str(&mut s, u),
        None => push_str(&mut s, "ALL members"),
    }
    s
}

/// The toast detail after a key was revoked.
pub fn revoked_detail(res: &RevokedKey) -> (s: String)
    ensures
        s@ == "revoked "@ + res.revoked@ + " ("@ + crate::text::dec(res.keys_disabled as nat)
            + " keys disabled)"@,
{
    let mut s = String::from_str("revoked ");
    push_str(&mut s, res.revoked.as_str());
    push_str(&mut s, " (");
    push_dec(&mut s, res.keys_disabled as u128);
    push_str(&mut s, " keys disabled)");
    s
}

/// The toast detail after a key was issued.
pub fn issued_detail(role: &str, username: &str) -> (s: String)
    ensures
        s@ == "issued "@ + role@ + " key for "@ + username@,
{
    let mut s = String::from_str("issued ");
    push_str(&mut s, role);
    push_str(&mut s, " key for ");
    push_str(&mut s, username);
    s
}

/// The toast detail after a role change.
pub fn set_role_detail(username: &str, role: Role) -> (s: String)
    ensures
        s@ == username@ + " is now "@ + role_wire(role),
{
    let mut s = String::new();
    push_str(&mut s, username);
    push_str(&mut s, " is now ");
    push_str(&mut s, role.as_wire());
    s
}

/// The simulator base URL without trailing slashes (std's
/// `trim_end_matches('/')`).
pub open spec fn without_trailing_slashes(s: Seq<char>) -> Seq<char>
    decreases s.len(),
{
    if s.len() > 0 && s.last() == '/' {
        without_trailing_slashes(s.drop_last())
    } else {
        s
    }
}

/// A server base URL without trailing slashes, so paths can be appended.
pub fn base_url(url: &str) -> (r: String)
    ensures
        r@ == without_trailing_slashes(url@),
{
    let cs = to_chars(url);
    let mut n: usize = cs.len();
    proof {
        assert(cs@.take(cs@.len() as int) =~= cs@);
    }
    while n > 0 && cs[n - 1] == '/'
        invariant
            n <= cs@.len(),
            cs@ == url@,
            without_trailing_slashes(url@) == without_trailing_slashes(cs@.take(n as int)),
        decreases n,
    {
        proof {
            assert(cs@.take(n as int).drop_last() =~= cs@.take(n - 1));
        }
        n = n - 1;
    }
    let mut r = String::new();
    crate::text::push_chars(&mut r, crate::text::slice_take(cs.as_slice(), n));
    r
}

/// The header authenticating admin calls: the master secret when one is
/// configured (owner rank), otherwise the member's own key (the sim honors
/// admin/owner-role keys).
pub fn admin_header(api_key: &str, admin_secret: &str) -> (h: (String, String))
    ensures
        admin_secret@.len() > 0 ==> h.0@ == "X-Admin-Secret"@ && h.1@ == admin_secret@,
        admin_secret@.len() == 0 ==> h.0@ == "POLY_API_KEY"@ && h.1@ == api_key@,
{
    if !admin_secret.is_empty() {
        (String::from_str("X-Admin-Secret"), String::from_str(admin_secret))
    } else {
        (String::from_str("POLY_API_KEY"), String::from_str(api_key))
    }
}

/// The query of `GET /markets`: active markets, one page, and the search
/// text when there is one.
pub fn markets_query(limit: u32, offset: u32, q: &str) -> (r: Vec<(String, String)>)
    ensures
        r@.len() == (if q@.len() > 0 { 4int } else { 3int }),
        pair_view(r@[0]) == ("active"@, "true"@),
        pair_view(r@[1]) == ("limit"@, crate::text::dec(limit as nat)),
        pair_view(r@[2]) == ("offset"@, crate::text::dec(offset as nat)),
        q@.len() > 0 ==> pair_view(r@[3]) == ("q"@, q@),
{
    let mut lim = String::new();
    push_dec(&mut lim, limit as u128);
    let mut off = String::new();
    push_dec(&mut off, offset as u128);
    let mut r: Vec<(String, String)> = Vec::new();
    r.push((String::from_str("active"), String::from_str("true")));
    r.push((String::from_str("limit"), lim));
    r.push((String::from_str("offset"), off));
    if !q.is_empty() {
        r.push((String::from_str("q"), String::from_str(q)));
    }
    r
}

/// Navigation-like actions succeed all the time; only their failures are
/// worth a toast.
pub open spec fn quiet_when_ok(kind: ActionKind) -> bool {
    kind == ActionKind::SetSearch || kind == ActionKind::SetMarketsOffset || kind
        == ActionKind::SelectMarket || kind == ActionKind::FetchProfile || kind
        == ActionKind::FetchAdminUser
}

/// The toast for an action result (`"order: order 17 open"`), or `None`
/// for a quiet success.
pub fn action_toast(kind: ActionKind, ok: bool, detail: &str) -> (r: Option<String>)
    ensures
        ok && quiet_when_ok(kind) ==> r is None,
        !(ok && quiet_when_ok(kind)) ==> (r matches Some(t) && t@ == kind_text(kind) + ": "@
            + detail@),
{
    let quiet = match kind {
        ActionKind::SetSearch | ActionKind::SetMarketsOffset | ActionKind::SelectMarket
        | ActionKind::FetchProfile | ActionKind::FetchAdminUser => true,
        _ => false,
    };
    if ok && quiet {
        return None;
    }
    let mut t = String::new();
    push_str(&mut t, kind_label(kind));
    push_str(&mut t, ": ");
    push_str(&mut t, detail);
    Some(t)
}

/// Whether an action result concerns an order (shown under the ticket).
pub fn is_order_action(kind: ActionKind) -> (r: bool)
    ensures
        r == (kind == ActionKind::PlaceOrder || kind == ActionKind::CancelOrder),
{
    match kind {
        ActionKind::PlaceOrder | ActionKind::CancelOrder => true,
        _ => false,
    }
}

/// The quotes shown beside a book: both the midpoint and the spread, or
/// nothing when either request failed.
pub fn quotes_from(
    mid: Result<Midpoint, ApiError>,
    spread: Result<Spread, ApiError>,
) -> (r: Option<SelectedQuotes>)
    ensures
        (mid is Ok && spread is Ok) ==> (r matches Some(q) && q.midpoint == mid->Ok_0.midpoint
            && q.spread == spread->Ok_0.spread),
        !(mid is Ok && spread is Ok) ==> r is None,
{
    match (mid, spread) {
        (Ok(m), Ok(sp)) => Some(SelectedQuotes { midpoint: m.midpoint, spread: sp.spread }),
        _ => None,
    }
}

} // verus!
