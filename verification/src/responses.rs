//! The bodies the HTTP API answers with, built from a session's bookkeeping.
use vstd::prelude::*;
use crate::engine::SessionState;
use crate::phase::GamePhase;
use crate::text::{join, lowercase_of, parse_uuid, parsed_uuid, owned, seq_contains, str_contains, to_lowercase, uuid_hyphenated, uuid_text};

verus! {

/// A login attempt sent by a client.
#[derive(Debug, Clone)]
pub struct LoginRequest {
    pub phone: String,
    pub password: String,
    pub site_name: String,
}

/// The answer to a login attempt. `session_id` holds the 128 bits of the session's UUID.
#[derive(Debug, Clone)]
pub struct LoginResponse {
    pub success: bool,
    pub session_id: u128,
    pub message: String,
    pub balance: Option<String>,
}

/// How far a login attempt got.
#[derive(Debug, Clone)]
pub enum LoginStage {
    /// No profile is registered under the site name.
    UnknownSite,
    /// The browser could not be started; the text says why.
    BrowserFailed(String),
    /// The site did not accept the credentials; the text says why.
    Rejected(String),
    /// The site accepted the credentials; the text is the confirmation.
    LoggedIn(String),
}

/// The answer to a request to start auto-play.
#[derive(Debug, Clone)]
pub struct AutoPlayResponse {
    pub success: bool,
    pub message: String,
    pub session_id: u128,
}

/// A balance reading.
#[derive(Debug, Clone)]
pub struct BalanceResponse {
    pub success: bool,
    pub balance: Option<String>,
    pub currency: String,
    pub source: String,
    pub error: Option<String>,
}

/// Counters of a session's rounds. `R` is the caller's record of one round.
#[derive(Debug, Clone)]
pub struct GameHistoryResponse<R> {
    pub rounds: Vec<R>,
    pub total_wins: u32,
    pub total_losses: u32,
    pub current_strategy_index: usize,
}

/// The service's health.
#[derive(Debug, Clone)]
pub struct ServerStatus {
    pub version: String,
    pub uptime_seconds: u64,
    pub active_sessions: usize,
    pub database_connected: bool,
}

/// The bet button as read from the game page.
#[derive(Debug, Clone)]
pub struct ButtonReading {
    pub class: String,
    pub text: String,
    /// The amount shown on the button; it is kept only when the button offers a cashout.
    pub cashout_amount: Option<String>,
}

/// A snapshot of a session's game. `O` is the caller's number type for odds.
#[derive(Debug, Clone)]
pub struct GameState<O> {
    pub phase: GamePhase,
    pub bet_button_class: String,
    pub bet_button_text: String,
    pub cashout_amount: Option<String>,
    pub input_value: Option<String>,
    pub is_waiting: bool,
    pub is_cashout_available: bool,
    pub current_balance: String,
    pub payout_count: usize,
    pub latest_payout: Option<String>,
    pub auto_play_active: bool,
    pub current_odd: O,
    pub current_multiplier: O,
    pub cashout_target: O,
    pub strategy_index: usize,
    pub total_wins: u32,
    pub total_losses: u32,
}

/// The payouts of recent rounds with their count and the latest one.
#[derive(Debug, Clone)]
pub struct PayoutSummary {
    pub payouts: Vec<String>,
    pub count: usize,
    pub latest: Option<String>,
}

pub open spec fn opt_view(o: Option<String>) -> Option<Seq<char>> {
    match o {
        Some(s) => Some(s@),
        None => None,
    }
}

pub open spec fn texts_view(v: Seq<String>) -> Seq<Seq<char>> {
    v.map_values(|s: String| s@)
}

pub open spec fn last_text(v: Seq<String>) -> Option<Seq<char>> {
    if v.len() == 0 {
        None
    } else {
        Some(v[v.len() - 1]@)
    }
}

/// A button styled as a cashout button.
pub open spec fn spec_shows_cashout(class: Seq<char>) -> bool {
    seq_contains(class, "btn-warning"@) || seq_contains(class, "cashout"@)
}

/// A button whose caption says the next round is awaited.
pub open spec fn spec_shows_waiting(text: Seq<char>) -> bool {
    seq_contains(lowercase_of(text), "waiting"@)
}

/// Whether the bet button currently offers a cashout.
pub fn button_shows_cashout(class: &str) -> (r: bool)
    ensures
        r == spec_shows_cashout(class@),
{
    str_contains(class, "btn-warning") || str_contains(class, "cashout")
}

/// Whether an already lowercased button caption says the next round is awaited.
pub fn lowered_shows_waiting(lower: &str) -> (r: bool)
    ensures
        r == seq_contains(lower@, "waiting"@),
{
    str_contains(lower, "waiting")
}

/// Whether the bet button says the next round is awaited.
pub fn button_shows_waiting(text: &str) -> (r: bool)
    ensures
        r == spec_shows_waiting(text@),
{
    let lower = to_lowercase(text);
    lowered_shows_waiting(lower.as_str())
}

/// A copy of a list of texts.
pub fn copy_texts(v: &Vec<String>) -> (r: Vec<String>)
    ensures
        texts_view(r@) == texts_view(v@),
{
    let mut r: Vec<String> = Vec::new();
    let mut i: usize = 0;
    while i < v.len()
        invariant
            i <= v.len(),
            r@.len() == i,
            forall|j: int| 0 <= j < i ==> #[trigger] r@[j]@ == v@[j]@,
        decreases v.len() - i,
    {
        r.push(v[i].clone());
        i = i + 1;
    }
    assert(texts_view(r@) =~= texts_view(v@));
    r
}

/// The last text of a list.
pub fn last_of(v: &Vec<String>) -> (r: Option<String>)
    ensures
        opt_view(r) == last_text(v@),
{
    if v.len() == 0 {
        None
    } else {
        Some(v[v.len() - 1].clone())
    }
}

/// The answer to a login attempt, from how far it got.
pub fn login_response(site_name: &str, session_id: u128, stage: LoginStage) -> (r: LoginResponse)
    ensures
        stage is UnknownSite ==> !r.success && r.session_id == 0
            && r.message@ == "Unknown site: "@ + site_name@ && r.balance is None,
        stage matches LoginStage::BrowserFailed(e) ==> !r.success && r.session_id == session_id
            && r.message@ == "Browser error: "@ + e@ && r.balance is None,
        stage matches LoginStage::Rejected(e) ==> !r.success && r.session_id == session_id
            && r.message@ == e@ && r.balance is None,
        stage matches LoginStage::LoggedIn(m) ==> r.success && r.session_id == session_id
            && r.message@ == m@ && (r.balance matches Some(b) && b@ == "0.00"@),
{
    match stage {
        LoginStage::UnknownSite => LoginResponse {
            success: false,
            session_id: 0,
            message: join("Unknown site: ", site_name),
            balance: None,
        },
        LoginStage::BrowserFailed(e) => LoginResponse {
            success: false,
            session_id,
            message: join("Browser error: ", e.as_str()),
            balance: None,
        },
        LoginStage::Rejected(e) => LoginResponse { success: false, session_id, message: e, balance: None },
        LoginStage::LoggedIn(m) => LoginResponse {
            success: true,
            session_id,
            message: m,
            balance: Some(owned("0.00")),
        },
    }
}

/// The error given for a session id that names no session.
pub fn session_not_found() -> (r: String)
    ensures
        r@ == "Session not found"@,
{
    owned("Session not found")
}

/// Why auto-play cannot start on a session, if it cannot.
pub fn auto_play_refusal<O>(session: Option<&SessionState<O>>) -> (r: Option<String>)
    ensures
        session is None ==> (r matches Some(m) && m@ == "Session not found"@),
        session matches Some(s) && s.auto_play_active ==> (r matches Some(m) && m@ == "Auto-play already active"@),
        session matches Some(s) && !s.auto_play_active ==> r is None,
{
    match session {
        None => Some(owned("Session not found")),
        Some(s) => if s.auto_play_active {
            Some(owned("Auto-play already active"))
        } else {
            None
        },
    }
}

/// The answer to a start request that was refused or failed with `message`.
pub fn auto_play_failure(session_id: u128, message: String) -> (r: AutoPlayResponse)
    ensures
        !r.success && r.message == message && r.session_id == session_id,
{
    AutoPlayResponse { success: false, message, session_id }
}

/// The answer when the game page could not be opened.
pub fn navigation_failure(session_id: u128, error: &str) -> (r: AutoPlayResponse)
    ensures
        !r.success && r.message@ == "Failed to navigate to Aviator: "@ + error@ && r.session_id == session_id,
{
    AutoPlayResponse { success: false, message: join("Failed to navigate to Aviator: ", error), session_id }
}

/// The answer carrying the outcome of starting auto-play.
pub fn auto_play_response(session_id: u128, outcome: Result<String, String>) -> (r: AutoPlayResponse)
    ensures
        r.session_id == session_id,
        outcome matches Ok(m) ==> r.success && r.message == m,
        outcome matches Err(e) ==> !r.success && r.message == e,
{
    match outcome {
        Ok(m) => AutoPlayResponse { success: true, message: m, session_id },
        Err(e) => AutoPlayResponse { success: false, message: e, session_id },
    }
}

/// A balance read from the page element matched by `selector`.
pub fn balance_found(selector: &str, text: &str) -> (r: BalanceResponse)
    ensures
        r.success,
        r.balance matches Some(b) && b@ == text@,
        r.currency@ == "KES"@,
        r.source@ == "selector: "@ + selector@,
        r.error is None,
{
    BalanceResponse {
        success: true,
        balance: Some(owned(text)),
        currency: owned("KES"),
        source: join("selector: ", selector),
        error: None,
    }
}

/// No balance element with text was found on the page.
pub fn balance_not_found() -> (r: BalanceResponse)
    ensures
        !r.success,
        r.balance is None,
        r.currency@ == "KES"@,
        r.source@ == "error"@,
        r.error matches Some(e) && e@ == "Balance element not found"@,
{
    BalanceResponse {
        success: false,
        balance: None,
        currency: owned("KES"),
        source: owned("error"),
        error: Some(owned("Balance element not found")),
    }
}

/// Reading the balance failed with `error`.
pub fn balance_error(error: String) -> (r: BalanceResponse)
    ensures
        !r.success,
        r.balance is None,
        r.currency@ == "KES"@,
        r.source@ == "error"@,
        r.error == Some(error),
{
    BalanceResponse { success: false, balance: None, currency: owned("KES"), source: owned("error"), error: Some(error) }
}

/// The balance of an unknown session was asked for.
pub fn balance_session_not_found() -> (r: BalanceResponse)
    ensures
        !r.success,
        r.balance is None,
        r.currency@ == "KES"@,
        r.source@ == "session_not_found"@,
        r.error matches Some(e) && e@ == "Session not found"@,
{
    BalanceResponse {
        success: false,
        balance: None,
        currency: owned("KES"),
        source: owned("session_not_found"),
        error: Some(owned("Session not found")),
    }
}

/// The payouts a route reports: freshly read ones, else those last recorded.
pub fn payouts_or_recorded(fetched: Result<Vec<String>, String>, recorded: &Vec<String>) -> (r: Vec<String>)
    ensures
        fetched matches Ok(p) ==> r == p,
        fetched is Err ==> texts_view(r@) == texts_view(recorded@),
{
    match fetched {
        Ok(p) => p,
        Err(_) => copy_texts(recorded),
    }
}

/// Payouts with their count and the latest.
pub fn payout_summary(payouts: Vec<String>) -> (r: PayoutSummary)
    ensures
        r.payouts == payouts,
        r.count == payouts@.len(),
        opt_view(r.latest) == last_text(payouts@),
{
    let count = payouts.len();
    let latest = last_of(&payouts);
    PayoutSummary { payouts, count, latest }
}

/// The round counters of a session, or zeros for an unknown one.
pub fn history_response<O, R>(session: Option<&SessionState<O>>) -> (r: GameHistoryResponse<R>)
    ensures
        r.rounds@.len() == 0,
        session matches Some(s) ==> r.total_wins == s.game_history.total_wins
            && r.total_losses == s.game_history.total_losses
            && r.current_strategy_index == s.game_history.current_strategy_index,
        session is None ==> r.total_wins == 0 && r.total_losses == 0 && r.current_strategy_index == 0,
{
    match session {
        Some(s) => GameHistoryResponse {
            rounds: Vec::new(),
            total_wins: s.game_history.total_wins,
            total_losses: s.game_history.total_losses,
            current_strategy_index: s.game_history.current_strategy_index,
        },
        None => GameHistoryResponse { rounds: Vec::new(), total_wins: 0, total_losses: 0, current_strategy_index: 0 },
    }
}

impl ServerStatus {
    /// The health report: the database is reported connected.
    pub fn report(version: String, uptime_seconds: u64, active_sessions: usize) -> (r: ServerStatus)
        ensures
            r.version == version,
            r.uptime_seconds == uptime_seconds,
            r.active_sessions == active_sessions,
            r.database_connected,
    {
        ServerStatus { version, uptime_seconds, active_sessions, database_connected: true }
    }
}

/// The session a manual bet or cashout request names by its `session_id`
/// text: the UUID it reads as, or the nil id (which names no session) when
/// the text is missing or is no UUID.
pub fn body_session_id(field: Option<&str>) -> (r: u128)
    ensures
        r == (match field {
            Some(t) => match parsed_uuid(t@) {
                Some(id) => id,
                None => 0,
            },
            None => 0,
        }),
        forall|id: u128| field matches Some(t) && t@ == #[trigger] uuid_hyphenated(id) ==> r == id,
{
    match field {
        Some(t) => match parse_uuid(t) {
            Some(id) => id,
            None => 0,
        },
        None => 0,
    }
}

/// The bet arguments of a manual bet, with the defaults for missing ones.
pub fn bet_arguments(amount: Option<&str>, odd: Option<&str>, multiplier: Option<&str>) -> (r: (String, String, String))
    ensures
        r.0@ == (match amount { Some(a) => a@, None => "100"@ }),
        r.1@ == (match odd { Some(o) => o@, None => "2.0"@ }),
        r.2@ == (match multiplier { Some(m) => m@, None => "1.5"@ }),
{
    let a = match amount {
        Some(a) => owned(a),
        None => owned("100"),
    };
    let o = match odd {
        Some(o) => owned(o),
        None => owned("2.0"),
    };
    let m = match multiplier {
        Some(m) => owned(m),
        None => owned("1.5"),
    };
    (a, o, m)
}

/// The name of a generated strategy: the one asked for, else one made from its id.
pub fn strategy_name(name: Option<String>, id: u128) -> (r: String)
    ensures
        name matches Some(n) ==> r == n,
        name is None ==> r@ == "Strategy "@ + uuid_hyphenated(id),
{
    match name {
        Some(n) => n,
        None => {
            let t = uuid_text(id);
            join("Strategy ", t.as_str())
        },
    }
}

/// The odds of a session's current step, or `zero` for both without one.
pub open spec fn step_or<O>(step: Option<(O, O)>, zero: O) -> (O, O) {
    match step {
        Some(t) => t,
        None => (zero, zero),
    }
}

/// The game state read from the page: the session's bookkeeping together
/// with what the bet button shows.
pub fn game_state_snapshot<O: Copy>(s: &SessionState<O>, button: ButtonReading, zero: O) -> (r: GameState<O>)
    ensures
        r.phase == s.game_phase,
        r.bet_button_class == button.class,
        r.bet_button_text == button.text,
        r.cashout_amount == (if spec_shows_cashout(button.class@) { button.cashout_amount } else { None }),
        r.input_value is None,
        r.is_waiting == spec_shows_waiting(button.text@),
        r.is_cashout_available == spec_shows_cashout(button.class@),
        r.current_balance@ == s.current_balance@,
        r.payout_count == s.payouts@.len(),
        opt_view(r.latest_payout) == last_text(s.payouts@),
        r.auto_play_active == s.auto_play_active,
        r.current_odd == step_or(s.current_step(), zero).0,
        r.current_multiplier == step_or(s.current_step(), zero).1,
        r.cashout_target == zero,
        r.strategy_index == s.game_history.current_strategy_index,
        r.total_wins == s.game_history.total_wins,
        r.total_losses == s.game_history.total_losses,
{
    let is_cashout = button_shows_cashout(button.class.as_str());
    let is_waiting = button_shows_waiting(button.text.as_str());
    let (odd, mult) = match s.cashout_step() {
        Some(t) => t,
        None => (zero, zero),
    };
    GameState {
        phase: s.game_phase.duplicate(),
        bet_button_class: button.class,
        bet_button_text: button.text,
        cashout_amount: if is_cashout { button.cashout_amount } else { None },
        input_value: None,
        is_waiting,
        is_cashout_available: is_cashout,
        current_balance: s.current_balance.clone(),
        payout_count: s.payouts.len(),
        latest_payout: last_of(&s.payouts),
        auto_play_active: s.auto_play_active,
        current_odd: odd,
        current_multiplier: mult,
        cashout_target: zero,
        strategy_index: s.game_history.current_strategy_index,
        total_wins: s.game_history.total_wins,
        total_losses: s.game_history.total_losses,
    }
}

/// The game state the API reports for a session from its bookkeeping alone,
/// or an error state for an unknown session.
pub fn session_game_state<O: Copy>(session: Option<&SessionState<O>>, zero: O) -> (r: GameState<O>)
    ensures
        r.bet_button_class@.len() == 0,
        r.bet_button_text@.len() == 0,
        r.cashout_amount is None,
        r.input_value is None,
        !r.is_waiting,
        !r.is_cashout_available,
        r.cashout_target == zero,
        session matches Some(s) ==> {
            &&& r.phase == s.game_phase
            &&& r.current_balance@ == s.current_balance@
            &&& r.payout_count == s.payouts@.len()
            &&& opt_view(r.latest_payout) == last_text(s.payouts@)
            &&& r.auto_play_active == s.auto_play_active
            &&& r.current_odd == step_or(s.current_step(), zero).0
            &&& r.current_multiplier == step_or(s.current_step(), zero).1
            &&& r.strategy_index == s.game_history.current_strategy_index
            &&& r.total_wins == s.game_history.total_wins
            &&& r.total_losses == s.game_history.total_losses
        },
        session is None ==> {
            &&& r.phase matches GamePhase::Error(e) && e@ == "Session not found"@
            &&& r.current_balance@ == "0.00"@
            &&& r.payout_count == 0
            &&& r.latest_payout is None
            &&& !r.auto_play_active
            &&& r.current_odd == zero
            &&& r.current_multiplier == zero
            &&& r.strategy_index == 0
            &&& r.total_wins == 0
            &&& r.total_losses == 0
        },
{
    match session {
        Some(s) => {
            let (odd, mult) = match s.cashout_step() {
                Some(t) => t,
                None => (zero, zero),
            };
            GameState {
                phase: s.game_phase.duplicate(),
                bet_button_class: String::new(),
                bet_button_text: String::new(),
                cashout_amount: None,
                input_value: None,
                is_waiting: false,
                is_cashout_available: false,
                current_balance: s.current_balance.clone(),
                payout_count: s.payouts.len(),
                latest_payout: last_of(&s.payouts),
                auto_play_active: s.auto_play_active,
                current_odd: odd,
                current_multiplier: mult,
                cashout_target: zero,
                strategy_index: s.game_history.current_strategy_index,
                total_wins: s.game_history.total_wins,
                total_losses: s.game_history.total_losses,
            }
        },
        None => GameState {
            phase: GamePhase::Error(owned("Session not found")),
            bet_button_class: String::new(),
            bet_button_text: String::new(),
            cashout_amount: None,
            input_value: None,
            is_waiting: false,
            is_cashout_available: false,
            current_balance: owned("0.00"),
            payout_count: 0,
            latest_payout: None,
            auto_play_active: false,
            current_odd: zero,
            current_multiplier: zero,
            cashout_target: zero,
            strategy_index: 0,
            total_wins: 0,
            total_losses: 0,
        },
    }
}

} // verus!
