//! The auto-play state machine of one browser session.
//!
//! The outside work (reading the page, clicking, sleeping) is done by the
//! caller; every decision about what happens next, and every change to the
//! session's bookkeeping, is made here.
use vstd::prelude::*;
use crate::phase::GamePhase;
use crate::sites::SiteProfile;
use crate::text::owned;

verus! {

/// A betting plan: a list of (stake, cashout multiplier) steps and the step in use.
/// `O` is the number type the caller uses for stakes and multipliers.
#[derive(Debug, Clone)]
pub struct StrategyData<O> {
    pub tuples: Vec<(O, O)>,
    pub expected_amount: O,
    pub current_index: usize,
}

impl<O> StrategyData<O> {
    /// The step in use, if the index points into the list.
    pub open spec fn current(&self) -> Option<(O, O)> {
        if self.current_index < self.tuples@.len() {
            Some(self.tuples@[self.current_index as int])
        } else {
            None
        }
    }

    pub open spec fn index_in_range(&self) -> bool {
        self.current_index < self.tuples@.len()
    }

    /// The plan after a lost round: the next step, wrapping round to the first.
    pub open spec fn advanced(self) -> StrategyData<O> {
        StrategyData {
            current_index: ((self.current_index + 1) % (self.tuples@.len() as int)) as usize,
            ..self
        }
    }

    /// A plan that starts at its first step.
    pub fn new(tuples: Vec<(O, O)>, expected_amount: O) -> (r: StrategyData<O>)
        ensures
            r.tuples@ == tuples@,
            r.expected_amount == expected_amount,
            r.current_index == 0,
    {
        StrategyData { tuples, expected_amount, current_index: 0 }
    }
}

impl<O: Copy> StrategyData<O> {
    /// The step in use.
    pub fn current_tuple(&self) -> (r: Option<(O, O)>)
        ensures
            r == self.current(),
    {
        if self.current_index < self.tuples.len() {
            Some(self.tuples[self.current_index])
        } else {
            None
        }
    }
}

/// Wins, losses and the step index reported to clients.
#[derive(Debug, Clone, Copy, PartialEq, Eq, Structural)]
pub struct GameHistoryData {
    pub total_wins: u32,
    pub total_losses: u32,
    pub current_strategy_index: usize,
}

impl Default for GameHistoryData {
    fn default() -> (r: Self)
        ensures
            r.total_wins == 0,
            r.total_losses == 0,
            r.current_strategy_index == 0,
    {
        GameHistoryData { total_wins: 0, total_losses: 0, current_strategy_index: 0 }
    }
}

/// The bookkeeping of one logged-in browser session.
#[derive(Debug, Clone)]
pub struct SessionState<O> {
    pub site: SiteProfile,
    pub game_phase: GamePhase,
    pub current_balance: String,
    pub payouts: Vec<String>,
    pub auto_play_active: bool,
    pub strategy: Option<StrategyData<O>>,
    pub game_history: GameHistoryData,
    pub is_demo_mode: bool,
    /// A stake that replaces the current step's odd as the amount of each bet.
    pub bet_amount: Option<O>,
    pub last_bet_timestamp: u64,
}

/// One bet to place: the amount staked, and the step's odd and cashout
/// multiplier that set the cashout target.
#[derive(Debug, Clone, Copy, PartialEq)]
pub struct BetPlan<O> {
    pub stake: O,
    pub odd: O,
    pub multiplier: O,
}

/// What the auto-play loop does next for a session.
#[derive(Debug, Clone, Copy, PartialEq, Eq, Structural)]
pub enum LoopStep {
    /// The session is gone or auto-play was stopped: leave the loop.
    Finish,
    /// Try to place the current step's bet, then pause.
    PlaceBet { pause_ms: u64 },
    /// Watch the round for the cashout target, then pause.
    WatchRound { pause_ms: u64 },
    /// Only pause.
    Sleep { pause_ms: u64 },
    /// Pause, then put the session back to idle.
    ResetAfter { pause_ms: u64 },
}

/// The loop's decision for a session (`None`: the session no longer exists).
pub open spec fn spec_loop_step<O>(session: Option<SessionState<O>>) -> LoopStep {
    match session {
        None => LoopStep::Finish,
        Some(s) => if !s.auto_play_active {
            LoopStep::Finish
        } else {
            match s.game_phase {
                GamePhase::Idle => LoopStep::PlaceBet { pause_ms: 2000 },
                GamePhase::WaitingRound => LoopStep::WatchRound { pause_ms: 500 },
                GamePhase::Flying => LoopStep::WatchRound { pause_ms: 500 },
                GamePhase::CashoutPending => LoopStep::Sleep { pause_ms: 300 },
                GamePhase::Settling => LoopStep::ResetAfter { pause_ms: 1000 },
                GamePhase::Error(_) => LoopStep::ResetAfter { pause_ms: 3000 },
                GamePhase::Betting => LoopStep::Sleep { pause_ms: 500 },
            }
        },
    }
}

impl<O> SessionState<O> {
    /// Every installed plan points at one of its steps.
    pub open spec fn strategy_in_range(&self) -> bool {
        self.strategy matches Some(st) ==> st.index_in_range()
    }

    /// The step a bet or a cashout works from.
    pub open spec fn current_step(&self) -> Option<(O, O)> {
        match self.strategy {
            Some(st) => st.current(),
            None => None,
        }
    }

    pub open spec fn after_start(self, strategy: StrategyData<O>, demo_mode: bool, bet_amount: Option<O>) -> SessionState<O> {
        SessionState {
            auto_play_active: true,
            strategy: Some(strategy),
            is_demo_mode: demo_mode,
            bet_amount,
            game_phase: GamePhase::Idle,
            ..self
        }
    }

    pub open spec fn after_stop(self) -> SessionState<O> {
        SessionState { auto_play_active: false, game_phase: GamePhase::Idle, ..self }
    }

    pub open spec fn with_phase(self, phase: GamePhase) -> SessionState<O> {
        SessionState { game_phase: phase, ..self }
    }

    /// The bet an idle tick places from a step: the override stake if one
    /// was given at start, else the step's odd.
    pub open spec fn plan_for(&self, step: (O, O)) -> BetPlan<O> {
        BetPlan {
            stake: match self.bet_amount {
                Some(b) => b,
                None => step.0,
            },
            odd: step.0,
            multiplier: step.1,
        }
    }

    /// Whether an idle tick places a bet.
    pub open spec fn bet_ready(&self) -> bool {
        self.auto_play_active && self.current_step() is Some
    }

    pub open spec fn after_bet(self, placed: bool) -> SessionState<O> {
        self.with_phase(if placed { GamePhase::WaitingRound } else { GamePhase::Idle })
    }

    /// The bookkeeping once a cashout click succeeded (a win) or failed (a loss).
    pub open spec fn after_cashout(self, clicked: bool) -> SessionState<O> {
        if clicked {
            SessionState {
                game_phase: GamePhase::Settling,
                game_history: GameHistoryData {
                    total_wins: (self.game_history.total_wins + 1) as u32,
                    current_strategy_index: 0,
                    ..self.game_history
                },
                ..self
            }
        } else {
            SessionState {
                game_phase: GamePhase::Idle,
                game_history: GameHistoryData {
                    total_losses: (self.game_history.total_losses + 1) as u32,
                    ..self.game_history
                },
                strategy: match self.strategy {
                    Some(st) => Some(st.advanced()),
                    None => None,
                },
                ..self
            }
        }
    }

    /// Whether the counter that a cashout outcome increments has room.
    pub open spec fn can_count(&self, clicked: bool) -> bool {
        if clicked {
            self.game_history.total_wins < u32::MAX
        } else {
            self.game_history.total_losses < u32::MAX
        }
    }

    /// A freshly logged-in session on `site`.
    pub fn new(site: SiteProfile) -> (r: SessionState<O>)
        ensures
            r.site == site,
            r.game_phase == GamePhase::Idle,
            r.current_balance@ == "0.00"@,
            r.payouts@.len() == 0,
            !r.auto_play_active,
            r.strategy is None,
            r.game_history == (GameHistoryData { total_wins: 0, total_losses: 0, current_strategy_index: 0 }),
            !r.is_demo_mode,
            r.bet_amount is None,
            r.last_bet_timestamp == 0,
    {
        SessionState {
            site,
            game_phase: GamePhase::Idle,
            current_balance: owned("0.00"),
            payouts: Vec::new(),
            auto_play_active: false,
            strategy: None,
            game_history: GameHistoryData::default(),
            is_demo_mode: false,
            bet_amount: None,
            last_bet_timestamp: 0,
        }
    }

    /// Installs a plan and turns auto-play on; refused while it is already on.
    /// A given `bet_amount` is staked on every bet in place of the step's odd.
    pub fn start_auto_play(&mut self, strategy: StrategyData<O>, demo_mode: bool, bet_amount: Option<O>) -> (r: Result<String, String>)
        ensures
            old(self).auto_play_active ==> (r matches Err(e) && e@ == "Auto-play already active"@)
                && *final(self) == *old(self),
            !old(self).auto_play_active ==> (r matches Ok(m) && m@ == "Auto-play started"@)
                && *final(self) == old(self).after_start(strategy, demo_mode, bet_amount),
    {
        if self.auto_play_active {
            return Err(owned("Auto-play already active"));
        }
        self.auto_play_active = true;
        self.strategy = Some(strategy);
        self.is_demo_mode = demo_mode;
        self.bet_amount = bet_amount;
        self.game_phase = GamePhase::Idle;
        Ok(owned("Auto-play started"))
    }

    /// Records the payouts last read from the page.
    pub fn record_payouts(&mut self, payouts: Vec<String>)
        ensures
            *final(self) == (SessionState { payouts, ..*old(self) }),
    {
        self.payouts = payouts;
    }

    /// Records the balance last read from the page.
    pub fn record_balance(&mut self, balance: String)
        ensures
            *final(self) == (SessionState { current_balance: balance, ..*old(self) }),
    {
        self.current_balance = balance;
    }

    /// Records when the last bet was placed, in seconds since the Unix epoch.
    pub fn record_bet_time(&mut self, secs: u64)
        ensures
            *final(self) == (SessionState { last_bet_timestamp: secs, ..*old(self) }),
    {
        self.last_bet_timestamp = secs;
    }

    /// Turns auto-play off and returns the session to idle.
    pub fn stop_auto_play(&mut self)
        ensures
            *final(self) == old(self).after_stop(),
    {
        self.auto_play_active = false;
        self.game_phase = GamePhase::Idle;
    }

    /// Puts the session back to idle after a settling or error pause.
    pub fn reset_to_idle(&mut self)
        ensures
            *final(self) == old(self).with_phase(GamePhase::Idle),
            old(self).strategy_in_range() ==> final(self).strategy_in_range(),
    {
        self.game_phase = GamePhase::Idle;
    }

    /// Records the outcome of placing a bet: waiting for the round, or idle again.
    pub fn finish_bet(&mut self, placed: bool)
        ensures
            *final(self) == old(self).after_bet(placed),
            !final(self).game_phase.is_busy_spec(),
    {
        if placed {
            self.game_phase = GamePhase::WaitingRound;
        } else {
            self.game_phase = GamePhase::Idle;
        }
    }

    /// Marks a cashout click as under way.
    pub fn begin_cashout(&mut self)
        ensures
            *final(self) == old(self).with_phase(GamePhase::CashoutPending),
    {
        self.game_phase = GamePhase::CashoutPending;
    }

    /// Records the outcome of a cashout click. A success counts a win and
    /// resets the reported step index; a failure counts a loss and moves the
    /// plan on to its next step, wrapping round.
    pub fn finish_cashout(&mut self, clicked: bool)
        requires
            old(self).strategy_in_range(),
            old(self).can_count(clicked),
        ensures
            *final(self) == old(self).after_cashout(clicked),
            final(self).strategy_in_range(),
            !final(self).game_phase.is_busy_spec(),
    {
        if clicked {
            self.game_phase = GamePhase::Settling;
            self.game_history.total_wins = self.game_history.total_wins + 1;
            self.game_history.current_strategy_index = 0;
        } else {
            self.game_phase = GamePhase::Idle;
            self.game_history.total_losses = self.game_history.total_losses + 1;
            let next = match &self.strategy {
                Some(st) => {
                    let n = st.tuples.len();
                    Some((st.current_index + 1) % n)
                },
                None => None,
            };
            match (&mut self.strategy, next) {
                (Some(st), Some(n)) => {
                    st.current_index = n;
                },
                _ => {},
            }
        }
    }
}

impl<O: Copy> SessionState<O> {
    /// An idle tick: when auto-play is on and the plan has a current step,
    /// marks the session as betting and hands out the bet to place for that
    /// step; otherwise changes nothing.
    pub fn begin_bet(&mut self) -> (r: Option<BetPlan<O>>)
        ensures
            old(self).bet_ready() ==> r == Some(old(self).plan_for(old(self).current_step()->0))
                && *final(self) == old(self).with_phase(GamePhase::Betting),
            !old(self).bet_ready() ==> r is None && *final(self) == *old(self),
    {
        if !self.auto_play_active {
            return None;
        }
        let step = match &self.strategy {
            Some(st) => st.current_tuple(),
            None => None,
        };
        match step {
            Some(t) => {
                let stake = match self.bet_amount {
                    Some(b) => b,
                    None => t.0,
                };
                self.game_phase = GamePhase::Betting;
                Some(BetPlan { stake, odd: t.0, multiplier: t.1 })
            },
            None => None,
        }
    }

    /// The step whose cashout target a watching tick compares against.
    pub fn cashout_step(&self) -> (r: Option<(O, O)>)
        ensures
            r == self.current_step(),
    {
        match &self.strategy {
            Some(st) => st.current_tuple(),
            None => None,
        }
    }
}

/// The auto-play loop's decision for a session (`None`: it no longer exists).
pub fn loop_step<O>(session: Option<&SessionState<O>>) -> (r: LoopStep)
    ensures
        r == spec_loop_step(match session { Some(s) => Some(*s), None => None }),
{
    match session {
        None => LoopStep::Finish,
        Some(s) => {
            if !s.auto_play_active {
                LoopStep::Finish
            } else {
                match &s.game_phase {
                    GamePhase::Idle => LoopStep::PlaceBet { pause_ms: 2000 },
                    GamePhase::WaitingRound => LoopStep::WatchRound { pause_ms: 500 },
                    GamePhase::Flying => LoopStep::WatchRound { pause_ms: 500 },
                    GamePhase::CashoutPending => LoopStep::Sleep { pause_ms: 300 },
                    GamePhase::Settling => LoopStep::ResetAfter { pause_ms: 1000 },
                    GamePhase::Error(_) => LoopStep::ResetAfter { pause_ms: 3000 },
                    GamePhase::Betting => LoopStep::Sleep { pause_ms: 500 },
                }
            }
        },
    }
}

/// The session after `k` lost rounds in a row.
pub open spec fn after_losses<O>(s: SessionState<O>, k: nat) -> SessionState<O>
    decreases k,
{
    if k == 0 {
        s
    } else {
        after_losses(s, (k - 1) as nat).after_cashout(false)
    }
}

/// Once auto-play is stopped, the loop leaves at its next tick.
pub proof fn lemma_stop_ends_loop<O>(s: SessionState<O>)
    ensures
        spec_loop_step(Some(s.after_stop())) == LoopStep::Finish,
{
}

/// Right after auto-play starts, the loop's next tick places a bet.
pub proof fn lemma_start_bets_next<O>(s: SessionState<O>, strategy: StrategyData<O>, demo_mode: bool, bet_amount: Option<O>)
    requires
        !s.auto_play_active,
    ensures
        spec_loop_step(Some(s.after_start(strategy, demo_mode, bet_amount))) == (LoopStep::PlaceBet { pause_ms: 2000 }),
{
}

/// The loop bets only from the idle phase and watches for a cashout only
/// while a round is awaited or flying.
pub proof fn lemma_loop_respects_phase<O>(s: SessionState<O>)
    ensures
        spec_loop_step(Some(s)) is PlaceBet ==> s.auto_play_active && s.game_phase is Idle,
        spec_loop_step(Some(s)) is WatchRound ==> s.auto_play_active && (s.game_phase is WaitingRound
            || s.game_phase is Flying),
        !s.auto_play_active ==> spec_loop_step(Some(s)) == LoopStep::Finish,
        s.auto_play_active && s.game_phase.is_busy_spec() ==> spec_loop_step(Some(s)) is Sleep,
{
}

/// Every change the state machine makes keeps an installed plan pointing at
/// one of its steps, provided the plan it installs does.
pub proof fn lemma_plan_stays_in_range<O>(
    s: SessionState<O>,
    strategy: StrategyData<O>,
    demo_mode: bool,
    bet_amount: Option<O>,
    phase: GamePhase,
    flag: bool,
)
    requires
        s.strategy_in_range(),
        strategy.index_in_range(),
        s.strategy matches Some(st) ==> st.tuples@.len() <= usize::MAX,
    ensures
        s.after_start(strategy, demo_mode, bet_amount).strategy_in_range(),
        s.after_stop().strategy_in_range(),
        s.with_phase(phase).strategy_in_range(),
        s.after_bet(flag).strategy_in_range(),
        s.after_cashout(flag).strategy_in_range(),
{
    if let Some(st) = s.strategy {
        let n = st.tuples@.len() as int;
        assert(0 <= (st.current_index + 1) % n < n);
    }
}

/// Every settled cashout attempt is counted exactly once, as a win or as a loss.
pub proof fn lemma_outcome_counted_once<O>(s: SessionState<O>, clicked: bool)
    requires
        s.can_count(clicked),
    ensures
        s.after_cashout(clicked).game_history.total_wins + s.after_cashout(clicked).game_history.total_losses
            == s.game_history.total_wins + s.game_history.total_losses + 1,
        clicked ==> s.after_cashout(clicked).game_history.total_wins == s.game_history.total_wins + 1,
        !clicked ==> s.after_cashout(clicked).game_history.total_losses == s.game_history.total_losses + 1,
{
}

/// After `k` lost rounds in a row the plan stands `k` steps further on,
/// counted round its list; its steps themselves are untouched.
pub proof fn lemma_losses_walk_the_plan<O>(s: SessionState<O>, k: nat)
    requires
        s.strategy is Some,
        s.strategy_in_range(),
        s.strategy->0.tuples@.len() <= usize::MAX,
    ensures
        after_losses(s, k).strategy matches Some(st) && st.tuples == s.strategy->0.tuples
            && st.current_index == (s.strategy->0.current_index + k) % (s.strategy->0.tuples@.len() as int),
    decreases k,
{
    let st0 = s.strategy->0;
    let n = st0.tuples@.len() as int;
    if k == 0 {
        vstd::arithmetic::div_mod::lemma_small_mod(st0.current_index as nat, n as nat);
    } else {
        lemma_losses_walk_the_plan(s, (k - 1) as nat);
        let prev = after_losses(s, (k - 1) as nat);
        let pst = prev.strategy->0;
        let x = st0.current_index + k - 1;
        assert(pst.current_index == x % n);
        assert(pst.tuples@.len() == n);
        if n == 1 {
            assert((pst.current_index + 1) % n == 0);
            assert((x + 1) % n == 0);
        } else {
            vstd::arithmetic::div_mod::lemma_small_mod(1, n as nat);
            vstd::arithmetic::div_mod::lemma_add_mod_noop(x, 1, n);
        }
        assert((pst.current_index + 1) % n == (st0.current_index + k) % n);
        assert(0 <= (pst.current_index + 1) % n < n);
        assert(after_losses(s, k) == prev.after_cashout(false));
    }
}

/// A plan of `n` steps is back at the step it started from after `n` lost rounds.
pub proof fn lemma_losses_cycle<O>(s: SessionState<O>)
    requires
        s.strategy is Some,
        s.strategy_in_range(),
        s.strategy->0.tuples@.len() <= usize::MAX,
    ensures
        after_losses(s, s.strategy->0.tuples@.len()).strategy->0.current_index == s.strategy->0.current_index,
{
    let st0 = s.strategy->0;
    let n = st0.tuples@.len();
    lemma_losses_walk_the_plan(s, n);
    vstd::arithmetic::div_mod::lemma_mod_add_multiples_vanish(st0.current_index as int, n as int);
    vstd::arithmetic::div_mod::lemma_small_mod(st0.current_index as nat, n as nat);
}

/// A stake given when auto-play starts is the amount of every bet placed
/// until the next start, whatever step the plan is at; without one, each bet
/// stakes its step's odd. The odd and multiplier always come from the step.
pub proof fn lemma_stake_override_persists<O>(
    s: SessionState<O>,
    strategy: StrategyData<O>,
    demo_mode: bool,
    bet_amount: Option<O>,
    step: (O, O),
    phase: GamePhase,
    flag: bool,
)
    ensures
        s.after_start(strategy, demo_mode, bet_amount).plan_for(step).stake == (match bet_amount {
            Some(b) => b,
            None => step.0,
        }),
        s.plan_for(step).odd == step.0 && s.plan_for(step).multiplier == step.1,
        s.after_stop().bet_amount == s.bet_amount,
        s.with_phase(phase).bet_amount == s.bet_amount,
        s.after_bet(flag).bet_amount == s.bet_amount,
        s.after_cashout(flag).bet_amount == s.bet_amount,
{
}

/// Settling a cashout, won or lost, never turns auto-play on or off; only a
/// start or a stop does. So with auto-play on, a won round pauses and then
/// returns to idle, and a lost round goes straight on to the next bet.
pub proof fn lemma_cashout_keeps_auto_play<O>(s: SessionState<O>, clicked: bool)
    ensures
        s.after_cashout(clicked).auto_play_active == s.auto_play_active,
        s.after_bet(clicked).auto_play_active == s.auto_play_active,
        s.auto_play_active ==> spec_loop_step(Some(s.after_cashout(true))) == (LoopStep::ResetAfter { pause_ms: 1000 }),
        s.auto_play_active ==> spec_loop_step(Some(s.after_cashout(true).with_phase(GamePhase::Idle)))
            == (LoopStep::PlaceBet { pause_ms: 2000 }),
        s.auto_play_active ==> spec_loop_step(Some(s.after_cashout(false))) == (LoopStep::PlaceBet { pause_ms: 2000 }),
{
}

} // verus!
