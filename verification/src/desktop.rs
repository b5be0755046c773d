//! The desktop client's model: what it shows, and what each message it
//! receives changes and asks to be done.
use vstd::prelude::*;
use crate::responses::{BalanceResponse, GameState, LoginResponse, ServerStatus, texts_view};
use crate::text::{decimal, join, join3, owned, u64_text, uuid_hyphenated, uuid_text};

verus! {

/// At most this many log lines are kept; the oldest go first.
pub const MAX_LOG_LINES: usize = 200;

/// The state of the desktop client's window. `O` is the number type of odds.
#[derive(Debug, Clone)]
pub struct DesktopModel<O> {
    pub session_id: Option<u128>,
    pub phone: String,
    pub password: String,
    pub status_message: String,
    pub is_dark_mode: bool,
    pub logs: Vec<String>,
    pub game_state: Option<GameState<O>>,
    pub balance: String,
    pub payouts: Vec<String>,
    pub auto_play_active: bool,
}

/// The model seen as values.
pub struct DesktopView<O> {
    pub session_id: Option<u128>,
    pub phone: Seq<char>,
    pub password: Seq<char>,
    pub status_message: Seq<char>,
    pub is_dark_mode: bool,
    pub logs: Seq<Seq<char>>,
    pub game_state: Option<GameState<O>>,
    pub balance: Seq<char>,
    pub payouts: Seq<Seq<char>>,
    pub auto_play_active: bool,
}

impl<O> View for DesktopModel<O> {
    type V = DesktopView<O>;

    open spec fn view(&self) -> DesktopView<O> {
        DesktopView {
            session_id: self.session_id,
            phone: self.phone@,
            password: self.password@,
            status_message: self.status_message@,
            is_dark_mode: self.is_dark_mode,
            logs: texts_view(self.logs@),
            game_state: self.game_state,
            balance: self.balance@,
            payouts: texts_view(self.payouts@),
            auto_play_active: self.auto_play_active,
        }
    }
}

/// What the window receives: a user action, or the reply to a request.
#[derive(Debug)]
pub enum DesktopMsg<O> {
    CheckServerStatus,
    ServerStatusReceived(Result<ServerStatus, String>),
    PhoneChanged(String),
    PasswordChanged(String),
    Login,
    LoginResult(Result<LoginResponse, String>),
    Logout,
    StartAutoPlay,
    StopAutoPlay,
    FetchGameState,
    GameStateReceived(Result<GameState<O>, String>),
    FetchPayouts,
    PayoutsReceived(Result<Vec<String>, String>),
    FetchBalance,
    BalanceReceived(Result<BalanceResponse, String>),
    UpdateStatus(String),
    ToggleTheme,
    ClearLogs,
}

/// What the window asks to be done after a message. `O` is the number type
/// of stakes.
#[derive(Debug, Clone)]
pub enum DesktopCommand<O> {
    Nothing,
    CheckServer,
    Login { phone: String, password: String, site: String },
    Logout(u128),
    /// Start auto-play on the session, with this stake override and demo mode.
    StartAutoPlay { session_id: u128, bet_amount: Option<O>, demo_mode: bool },
    StopAutoPlay(u128),
    FetchGameState(u128),
    FetchPayouts(u128),
    FetchBalance(u128),
    ApplyTheme(bool),
}

/// A command seen as values.
pub enum CommandView<O> {
    Nothing,
    CheckServer,
    Login { phone: Seq<char>, password: Seq<char>, site: Seq<char> },
    Logout(u128),
    StartAutoPlay { session_id: u128, bet_amount: Option<O>, demo_mode: bool },
    StopAutoPlay(u128),
    FetchGameState(u128),
    FetchPayouts(u128),
    FetchBalance(u128),
    ApplyTheme(bool),
}

impl<O> View for DesktopCommand<O> {
    type V = CommandView<O>;

    open spec fn view(&self) -> CommandView<O> {
        match self {
            DesktopCommand::Nothing => CommandView::Nothing,
            DesktopCommand::CheckServer => CommandView::CheckServer,
            DesktopCommand::Login { phone, password, site } => CommandView::Login {
                phone: phone@,
                password: password@,
                site: site@,
            },
            DesktopCommand::Logout(id) => CommandView::Logout(*id),
            DesktopCommand::StartAutoPlay { session_id, bet_amount, demo_mode } => CommandView::StartAutoPlay {
                session_id: *session_id,
                bet_amount: *bet_amount,
                demo_mode: *demo_mode,
            },
            DesktopCommand::StopAutoPlay(id) => CommandView::StopAutoPlay(*id),
            DesktopCommand::FetchGameState(id) => CommandView::FetchGameState(*id),
            DesktopCommand::FetchPayouts(id) => CommandView::FetchPayouts(*id),
            DesktopCommand::FetchBalance(id) => CommandView::FetchBalance(*id),
            DesktopCommand::ApplyTheme(dark) => CommandView::ApplyTheme(*dark),
        }
    }
}

/// A log line: the clock reading in brackets, a space, and the message.
pub open spec fn log_line(clock: Seq<char>, msg: Seq<char>) -> Seq<char> {
    "["@ + clock + "] "@ + msg
}

/// The log after one more line, dropping the oldest beyond the limit.
pub open spec fn with_log(logs: Seq<Seq<char>>, line: Seq<char>) -> Seq<Seq<char>> {
    let l = logs.push(line);
    if l.len() > 200 {
        l.drop_first()
    } else {
        l
    }
}

pub open spec fn status_line(st: ServerStatus) -> Seq<char> {
    "Server v"@ + st.version@ + " | Uptime: "@ + decimal(st.uptime_seconds as nat) + "s | Sessions: "@
        + decimal(st.active_sessions as nat)
}

/// The model after `msg`, at clock reading `clock`.
pub open spec fn spec_next<O>(m: DesktopView<O>, msg: DesktopMsg<O>, clock: Seq<char>) -> DesktopView<O> {
    match msg {
        DesktopMsg::CheckServerStatus => m,
        DesktopMsg::ServerStatusReceived(Ok(st)) => DesktopView {
            status_message: status_line(st),
            logs: with_log(m.logs, log_line(clock, "[SERVER] Connected, version "@ + st.version@)),
            ..m
        },
        DesktopMsg::ServerStatusReceived(Err(e)) => DesktopView {
            status_message: "Server offline: "@ + e@,
            logs: with_log(m.logs, log_line(clock, "[ERROR] "@ + e@)),
            ..m
        },
        DesktopMsg::PhoneChanged(p) => DesktopView { phone: p@, ..m },
        DesktopMsg::PasswordChanged(p) => DesktopView { password: p@, ..m },
        DesktopMsg::Login => if m.phone.len() == 0 || m.password.len() == 0 {
            DesktopView { status_message: "Enter phone and password"@, ..m }
        } else {
            m
        },
        DesktopMsg::LoginResult(Ok(resp)) => if resp.success {
            DesktopView {
                session_id: Some(resp.session_id),
                status_message: "Logged in: "@ + resp.message@,
                logs: with_log(m.logs, log_line(clock, "[LOGIN] Success, session "@ + uuid_hyphenated(resp.session_id))),
                ..m
            }
        } else {
            DesktopView {
                status_message: resp.message@,
                logs: with_log(m.logs, log_line(clock, "[LOGIN] Failed: "@ + resp.message@)),
                ..m
            }
        },
        DesktopMsg::LoginResult(Err(e)) => DesktopView {
            status_message: "Login error: "@ + e@,
            logs: with_log(m.logs, log_line(clock, "[LOGIN] Error: "@ + e@)),
            ..m
        },
        DesktopMsg::Logout => DesktopView {
            session_id: None,
            auto_play_active: false,
            logs: with_log(m.logs, log_line(clock, "[LOGOUT] Session cleared"@)),
            ..m
        },
        DesktopMsg::StartAutoPlay => if m.session_id is Some {
            DesktopView { auto_play_active: true, ..m }
        } else {
            m
        },
        DesktopMsg::StopAutoPlay => if m.session_id is Some {
            DesktopView { auto_play_active: false, ..m }
        } else {
            m
        },
        DesktopMsg::FetchGameState => m,
        DesktopMsg::GameStateReceived(Ok(st)) => DesktopView {
            game_state: Some(st),
            balance: st.current_balance@,
            auto_play_active: st.auto_play_active,
            ..m
        },
        DesktopMsg::GameStateReceived(Err(_)) => m,
        DesktopMsg::FetchPayouts => m,
        DesktopMsg::PayoutsReceived(Ok(p)) => DesktopView { payouts: texts_view(p@), ..m },
        DesktopMsg::PayoutsReceived(Err(_)) => m,
        DesktopMsg::FetchBalance => m,
        DesktopMsg::BalanceReceived(Ok(resp)) => if resp.success {
            DesktopView {
                balance: match resp.balance {
                    Some(b) => b@,
                    None => "0.00"@,
                },
                ..m
            }
        } else {
            m
        },
        DesktopMsg::BalanceReceived(Err(_)) => m,
        DesktopMsg::UpdateStatus(s) => DesktopView {
            status_message: s@,
            logs: with_log(m.logs, log_line(clock, "[STATUS] "@ + s@)),
            ..m
        },
        DesktopMsg::ToggleTheme => DesktopView { is_dark_mode: !m.is_dark_mode, ..m },
        DesktopMsg::ClearLogs => DesktopView { logs: seq![log_line(clock, "[LOGS] Cleared"@)], ..m },
    }
}

/// What the window asks to be done after `msg`.
pub open spec fn spec_command<O>(m: DesktopView<O>, msg: DesktopMsg<O>) -> CommandView<O> {
    match msg {
        DesktopMsg::CheckServerStatus => CommandView::CheckServer,
        DesktopMsg::Login => if m.phone.len() == 0 || m.password.len() == 0 {
            CommandView::Nothing
        } else {
            CommandView::Login { phone: m.phone, password: m.password, site: "Betika"@ }
        },
        DesktopMsg::Logout => match m.session_id {
            Some(id) => CommandView::Logout(id),
            None => CommandView::Nothing,
        },
        DesktopMsg::StartAutoPlay => match m.session_id {
            Some(id) => CommandView::StartAutoPlay { session_id: id, bet_amount: None, demo_mode: false },
            None => CommandView::Nothing,
        },
        DesktopMsg::StopAutoPlay => match m.session_id {
            Some(id) => CommandView::StopAutoPlay(id),
            None => CommandView::Nothing,
        },
        DesktopMsg::FetchGameState => match m.session_id {
            Some(id) => CommandView::FetchGameState(id),
            None => CommandView::Nothing,
        },
        DesktopMsg::FetchPayouts => match m.session_id {
            Some(id) => CommandView::FetchPayouts(id),
            None => CommandView::Nothing,
        },
        DesktopMsg::FetchBalance => match m.session_id {
            Some(id) => CommandView::FetchBalance(id),
            None => CommandView::Nothing,
        },
        DesktopMsg::ToggleTheme => CommandView::ApplyTheme(!m.is_dark_mode),
        _ => CommandView::Nothing,
    }
}

/// What an auto-play start request's reply is reported as: a status update
/// when it succeeded or failed to arrive, nothing when the server refused.
pub fn auto_play_reply_status(reply: Result<bool, String>) -> (r: Option<String>)
    ensures
        reply matches Ok(true) ==> (r matches Some(s) && s@ == "Auto-play started"@),
        reply matches Ok(false) ==> r is None,
        reply matches Err(e) ==> (r matches Some(s) && s@ == "Error: "@ + e@),
{
    match reply {
        Ok(true) => Some(owned("Auto-play started")),
        Ok(false) => None,
        Err(e) => Some(join("Error: ", e.as_str())),
    }
}

/// A log line stamped with `clock`.
pub fn log_text(clock: &str, msg: &str) -> (r: String)
    ensures
        r@ == log_line(clock@, msg@),
{
    let mut line = join3("[", clock, "] ");
    line.append(msg);
    line
}

impl<O> DesktopModel<O> {
    /// The window as it opens, with its first log line.
    pub fn new() -> (r: DesktopModel<O>)
        ensures
            r.session_id is None,
            r.phone@.len() == 0,
            r.password@.len() == 0,
            r.status_message@ == "Click Refresh to check server"@,
            r.is_dark_mode,
            r@.logs == seq!["[INIT] Desktop client started"@],
            r.game_state is None,
            r.balance@ == "0.00"@,
            r.payouts@.len() == 0,
            !r.auto_play_active,
    {
        let mut logs: Vec<String> = Vec::new();
        logs.push(owned("[INIT] Desktop client started"));
        let r = DesktopModel {
            session_id: None,
            phone: String::new(),
            password: String::new(),
            status_message: owned("Click Refresh to check server"),
            is_dark_mode: true,
            logs,
            game_state: None,
            balance: owned("0.00"),
            payouts: Vec::new(),
            auto_play_active: false,
        };
        assert(r@.logs =~= seq!["[INIT] Desktop client started"@]);
        r
    }

    /// Appends a log line stamped with `clock`, dropping the oldest beyond the limit.
    pub fn add_log(&mut self, clock: &str, msg: &str)
        ensures
            final(self)@ == (DesktopView { logs: with_log(old(self)@.logs, log_line(clock@, msg@)), ..old(self)@ }),
    {
        let line = log_text(clock, msg);
        let ghost before = self.logs@;
        self.logs.push(line);
        assert(texts_view(self.logs@) =~= texts_view(before).push(log_line(clock@, msg@)));
        if self.logs.len() > MAX_LOG_LINES {
            let ghost pushed = self.logs@;
            self.logs.remove(0);
            assert(texts_view(self.logs@) =~= texts_view(pushed).drop_first());
        }
    }

    /// Handles one message at clock reading `clock` and returns what to do next.
    pub fn update(&mut self, msg: DesktopMsg<O>, clock: &str) -> (r: DesktopCommand<O>)
        ensures
            final(self)@ == spec_next(old(self)@, msg, clock@),
            r@ == spec_command(old(self)@, msg),
    {
        let ghost m0 = self@;
        let ghost msg0 = msg;
        match msg {
            DesktopMsg::CheckServerStatus => DesktopCommand::CheckServer,
            DesktopMsg::ServerStatusReceived(Ok(st)) => {
                let mut status = join("Server v", st.version.as_str());
                status.append(" | Uptime: ");
                let up = u64_text(st.uptime_seconds);
                status.append(up.as_str());
                status.append("s | Sessions: ");
                let n = u64_text(st.active_sessions as u64);
                status.append(n.as_str());
                self.status_message = status;
                let line = join("[SERVER] Connected, version ", st.version.as_str());
                self.add_log(clock, line.as_str());
                DesktopCommand::Nothing
            },
            DesktopMsg::ServerStatusReceived(Err(e)) => {
                self.status_message = join("Server offline: ", e.as_str());
                let line = join("[ERROR] ", e.as_str());
                self.add_log(clock, line.as_str());
                DesktopCommand::Nothing
            },
            DesktopMsg::PhoneChanged(p) => {
                self.phone = p;
                DesktopCommand::Nothing
            },
            DesktopMsg::PasswordChanged(p) => {
                self.password = p;
                DesktopCommand::Nothing
            },
            DesktopMsg::Login => {
                if self.phone.as_str().is_empty() || self.password.as_str().is_empty() {
                    self.status_message = owned("Enter phone and password");
                    DesktopCommand::Nothing
                } else {
                    DesktopCommand::Login {
                        phone: self.phone.clone(),
                        password: self.password.clone(),
                        site: owned("Betika"),
                    }
                }
            },
            DesktopMsg::LoginResult(Ok(resp)) => {
                if resp.success {
                    self.session_id = Some(resp.session_id);
                    self.status_message = join("Logged in: ", resp.message.as_str());
                    let id = uuid_text(resp.session_id);
                    let line = join("[LOGIN] Success, session ", id.as_str());
                    self.add_log(clock, line.as_str());
                } else {
                    self.status_message = resp.message.clone();
                    let line = join("[LOGIN] Failed: ", resp.message.as_str());
                    self.add_log(clock, line.as_str());
                }
                DesktopCommand::Nothing
            },
            DesktopMsg::LoginResult(Err(e)) => {
                self.status_message = join("Login error: ", e.as_str());
                let line = join("[LOGIN] Error: ", e.as_str());
                self.add_log(clock, line.as_str());
                DesktopCommand::Nothing
            },
            DesktopMsg::Logout => {
                let cmd = match self.session_id {
                    Some(id) => DesktopCommand::Logout(id),
                    None => DesktopCommand::Nothing,
                };
                self.session_id = None;
                self.auto_play_active = false;
                self.add_log(clock, "[LOGOUT] Session cleared");
                cmd
            },
            DesktopMsg::StartAutoPlay => match self.session_id {
                Some(id) => {
                    self.auto_play_active = true;
                    DesktopCommand::StartAutoPlay { session_id: id, bet_amount: None, demo_mode: false }
                },
                None => DesktopCommand::Nothing,
            },
            DesktopMsg::StopAutoPlay => match self.session_id {
                Some(id) => {
                    self.auto_play_active = false;
                    DesktopCommand::StopAutoPlay(id)
                },
                None => DesktopCommand::Nothing,
            },
            DesktopMsg::FetchGameState => match self.session_id {
                Some(id) => DesktopCommand::FetchGameState(id),
                None => DesktopCommand::Nothing,
            },
            DesktopMsg::GameStateReceived(Ok(st)) => {
                self.balance = st.current_balance.clone();
                self.auto_play_active = st.auto_play_active;
                self.game_state = Some(st);
                DesktopCommand::Nothing
            },
            DesktopMsg::GameStateReceived(Err(_)) => DesktopCommand::Nothing,
            DesktopMsg::FetchPayouts => match self.session_id {
                Some(id) => DesktopCommand::FetchPayouts(id),
                None => DesktopCommand::Nothing,
            },
            DesktopMsg::PayoutsReceived(Ok(p)) => {
                self.payouts = p;
                DesktopCommand::Nothing
            },
            DesktopMsg::PayoutsReceived(Err(_)) => DesktopCommand::Nothing,
            DesktopMsg::FetchBalance => match self.session_id {
                Some(id) => DesktopCommand::FetchBalance(id),
                None => DesktopCommand::Nothing,
            },
            DesktopMsg::BalanceReceived(Ok(resp)) => {
                if resp.success {
                    self.balance = match resp.balance {
                        Some(b) => b,
                        None => owned("0.00"),
                    };
                }
                DesktopCommand::Nothing
            },
            DesktopMsg::BalanceReceived(Err(_)) => DesktopCommand::Nothing,
            DesktopMsg::UpdateStatus(text) => {
                let line = join("[STATUS] ", text.as_str());
                self.status_message = text;
                self.add_log(clock, line.as_str());
                DesktopCommand::Nothing
            },
            DesktopMsg::ToggleTheme => {
                self.is_dark_mode = !self.is_dark_mode;
                DesktopCommand::ApplyTheme(self.is_dark_mode)
            },
            DesktopMsg::ClearLogs => {
                self.logs = Vec::new();
                self.logs.push(log_text(clock, "[LOGS] Cleared"));
                assert(texts_view(self.logs@) =~= seq![log_line(clock@, "[LOGS] Cleared"@)]);
                DesktopCommand::Nothing
            },
        }
    }
}

/// The log never holds more than its limit of lines.
pub proof fn lemma_log_stays_bounded<O>(m: DesktopView<O>, msg: DesktopMsg<O>, clock: Seq<char>)
    requires
        m.logs.len() <= 200,
    ensures
        spec_next(m, msg, clock).logs.len() <= 200,
{
}

/// A new log line always ends the log, whatever was dropped.
pub proof fn lemma_log_keeps_newest(logs: Seq<Seq<char>>, line: Seq<char>)
    ensures
        with_log(logs, line).len() > 0,
        with_log(logs, line).last() == line,
        logs.len() < 200 ==> with_log(logs, line) == logs.push(line),
{
}

/// Logging out forgets the session and turns auto-play off.
pub proof fn lemma_logout_forgets_session<O>(m: DesktopView<O>, clock: Seq<char>)
    ensures
        spec_next(m, DesktopMsg::Logout, clock).session_id is None,
        !spec_next(m, DesktopMsg::Logout, clock).auto_play_active,
{
}

/// Without a session no request about one is sent.
pub proof fn lemma_no_session_no_request<O>(m: DesktopView<O>, msg: DesktopMsg<O>)
    requires
        m.session_id is None,
    ensures
        !(spec_command(m, msg) is Logout || spec_command(m, msg) is StartAutoPlay
            || spec_command(m, msg) is StopAutoPlay || spec_command(m, msg) is FetchGameState
            || spec_command(m, msg) is FetchPayouts || spec_command(m, msg) is FetchBalance),
{
}

/// Toggling the theme twice restores the window as it was.
pub proof fn lemma_theme_toggle_twice<O>(m: DesktopView<O>, clock: Seq<char>)
    ensures
        spec_next(spec_next(m, DesktopMsg::ToggleTheme, clock), DesktopMsg::ToggleTheme, clock) == m,
{
}


/// Logging in asks for both credentials: with the phone or the password
/// empty nothing is sent and the window asks for them; a login request is
/// only ever sent with a non-empty phone and password, which it carries as
/// typed, for the Betika site.
pub proof fn lemma_login_needs_both_credentials<O>(m: DesktopView<O>, clock: Seq<char>)
    ensures
        (m.phone.len() == 0 || m.password.len() == 0) ==> spec_command(m, DesktopMsg::Login) is Nothing,
        (m.phone.len() == 0 || m.password.len() == 0)
            ==> spec_next(m, DesktopMsg::Login, clock).status_message == "Enter phone and password"@,
        spec_command(m, DesktopMsg::Login) matches CommandView::Login { phone, password, site }
            ==> phone.len() > 0 && password.len() > 0 && phone == m.phone && password == m.password
            && site == "Betika"@,
        (m.phone.len() > 0 && m.password.len() > 0) ==> spec_command(m, DesktopMsg::Login) is Login,
{
}

} // verus!
