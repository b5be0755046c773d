use vstd::prelude::*;

verus! {

/// The phase a session's auto-play is in.
#[derive(Debug, Clone, PartialEq)]
pub enum GamePhase {
    Idle,
    Betting,
    WaitingRound,
    Flying,
    CashoutPending,
    Settling,
    Error(String),
}

impl GamePhase {
    /// A bet or a cashout is being submitted.
    pub open spec fn is_busy_spec(&self) -> bool {
        self is Betting || self is CashoutPending
    }

    /// A copy of this phase.
    pub fn duplicate(&self) -> (r: GamePhase)
        ensures
            r == *self,
    {
        match self {
            GamePhase::Idle => GamePhase::Idle,
            GamePhase::Betting => GamePhase::Betting,
            GamePhase::WaitingRound => GamePhase::WaitingRound,
            GamePhase::Flying => GamePhase::Flying,
            GamePhase::CashoutPending => GamePhase::CashoutPending,
            GamePhase::Settling => GamePhase::Settling,
            GamePhase::Error(e) => GamePhase::Error(e.clone()),
        }
    }

    /// The balance may be read only while nothing is in flight.
    pub fn can_fetch_balance(&self) -> (r: bool)
        ensures
            r <==> (self is Idle || self is WaitingRound || self is Settling),
    {
        match self {
            GamePhase::Idle | GamePhase::WaitingRound | GamePhase::Settling => true,
            _ => false,
        }
    }

    /// Payouts may be read in every phase.
    pub fn can_fetch_payouts(&self) -> (r: bool)
        ensures
            r,
    {
        true
    }

    /// A bet may be placed only from the idle phase.
    pub fn can_place_bet(&self) -> (r: bool)
        ensures
            r <==> self is Idle,
    {
        match self {
            GamePhase::Idle => true,
            _ => false,
        }
    }

    /// A cashout may be clicked only while the plane is flying.
    pub fn can_cashout(&self) -> (r: bool)
        ensures
            r <==> self is Flying,
    {
        match self {
            GamePhase::Flying => true,
            _ => false,
        }
    }

    /// A bet or a cashout is being submitted.
    pub fn is_busy(&self) -> (r: bool)
        ensures
            r == self.is_busy_spec(),
    {
        match self {
            GamePhase::Betting | GamePhase::CashoutPending => true,
            _ => false,
        }
    }
}

/// How a finished round ended for the player.
#[derive(Debug, Clone, Copy, PartialEq, Eq, Structural)]
pub enum RoundResult {
    Win,
    Loss,
    Pending,
    Cancelled,
}

} // verus!
