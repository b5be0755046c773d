use aviet::engine::{BetPlan, GameHistoryData, LoopStep, SessionState, StrategyData, loop_step};
use aviet::phase::{GamePhase, RoundResult};
use aviet::sites::betika_profile;

fn plan() -> StrategyData<f64> {
    StrategyData::new(vec![(100.0, 2.0), (200.0, 2.0), (400.0, 2.0)], 1400.0)
}

fn session() -> SessionState<f64> {
    SessionState::new(betika_profile())
}

#[test]
fn phase_predicates() {
    let all = vec![
        GamePhase::Idle,
        GamePhase::Betting,
        GamePhase::WaitingRound,
        GamePhase::Flying,
        GamePhase::CashoutPending,
        GamePhase::Settling,
        GamePhase::Error("boom".to_string()),
    ];
    let balance: Vec<bool> = all.iter().map(|p| p.can_fetch_balance()).collect();
    assert_eq!(balance, vec![true, false, true, false, false, true, false]);
    let bet: Vec<bool> = all.iter().map(|p| p.can_place_bet()).collect();
    assert_eq!(bet, vec![true, false, false, false, false, false, false]);
    let cash: Vec<bool> = all.iter().map(|p| p.can_cashout()).collect();
    assert_eq!(cash, vec![false, false, false, true, false, false, false]);
    let busy: Vec<bool> = all.iter().map(|p| p.is_busy()).collect();
    assert_eq!(busy, vec![false, true, false, false, true, false, false]);
    assert!(all.iter().all(|p| p.can_fetch_payouts()));
    assert_eq!(all[6].duplicate(), GamePhase::Error("boom".to_string()));
    assert_ne!(RoundResult::Win, RoundResult::Loss);
}

#[test]
fn new_session_is_idle_and_empty() {
    let s = session();
    assert_eq!(s.game_phase, GamePhase::Idle);
    assert_eq!(s.current_balance, "0.00");
    assert!(s.payouts.is_empty());
    assert!(!s.auto_play_active);
    assert!(s.strategy.is_none());
    assert_eq!(s.game_history, GameHistoryData { total_wins: 0, total_losses: 0, current_strategy_index: 0 });
    assert_eq!(s.last_bet_timestamp, 0);
    assert_eq!(GameHistoryData::default(), s.game_history);
}

#[test]
fn start_twice_is_refused() {
    let mut s = session();
    s.game_phase = GamePhase::Settling;
    assert_eq!(s.start_auto_play(plan(), true, None), Ok("Auto-play started".to_string()));
    assert!(s.auto_play_active);
    assert!(s.is_demo_mode);
    assert_eq!(s.game_phase, GamePhase::Idle);
    assert_eq!(s.strategy.as_ref().unwrap().tuples.len(), 3);
    assert_eq!(s.start_auto_play(plan(), false, None), Err("Auto-play already active".to_string()));
    assert!(s.is_demo_mode);
}

#[test]
fn loop_steps_follow_phase() {
    assert_eq!(loop_step::<f64>(None), LoopStep::Finish);
    let mut s = session();
    assert_eq!(loop_step(Some(&s)), LoopStep::Finish);
    s.start_auto_play(plan(), false, None).unwrap();
    assert_eq!(loop_step(Some(&s)), LoopStep::PlaceBet { pause_ms: 2000 });
    let cases = vec![
        (GamePhase::WaitingRound, LoopStep::WatchRound { pause_ms: 500 }),
        (GamePhase::Flying, LoopStep::WatchRound { pause_ms: 500 }),
        (GamePhase::CashoutPending, LoopStep::Sleep { pause_ms: 300 }),
        (GamePhase::Settling, LoopStep::ResetAfter { pause_ms: 1000 }),
        (GamePhase::Error("x".to_string()), LoopStep::ResetAfter { pause_ms: 3000 }),
        (GamePhase::Betting, LoopStep::Sleep { pause_ms: 500 }),
    ];
    for (phase, step) in cases {
        s.game_phase = phase;
        assert_eq!(loop_step(Some(&s)), step);
    }
    s.stop_auto_play();
    assert_eq!(s.game_phase, GamePhase::Idle);
    assert_eq!(loop_step(Some(&s)), LoopStep::Finish);
}

#[test]
fn idle_tick_bets_current_step() {
    let mut s = session();
    assert_eq!(s.begin_bet(), None);
    s.start_auto_play(plan(), false, None).unwrap();
    assert_eq!(s.begin_bet(), Some(BetPlan { stake: 100.0, odd: 100.0, multiplier: 2.0 }));
    assert_eq!(s.game_phase, GamePhase::Betting);
    s.finish_bet(true);
    assert_eq!(s.game_phase, GamePhase::WaitingRound);
    s.game_phase = GamePhase::Idle;
    s.begin_bet();
    s.finish_bet(false);
    assert_eq!(s.game_phase, GamePhase::Idle);
    s.strategy.as_mut().unwrap().current_index = 7;
    assert_eq!(s.begin_bet(), None);
    assert_eq!(s.game_phase, GamePhase::Idle);
}

#[test]
fn cashout_win_and_losses() {
    let mut s = session();
    s.start_auto_play(plan(), false, None).unwrap();
    s.game_history.current_strategy_index = 5;
    assert_eq!(s.cashout_step(), Some((100.0, 2.0)));
    s.begin_cashout();
    assert_eq!(s.game_phase, GamePhase::CashoutPending);
    s.finish_cashout(true);
    assert_eq!(s.game_phase, GamePhase::Settling);
    assert_eq!(s.game_history.total_wins, 1);
    assert_eq!(s.game_history.current_strategy_index, 0);
    assert_eq!(s.strategy.as_ref().unwrap().current_index, 0);
    s.reset_to_idle();
    assert_eq!(s.game_phase, GamePhase::Idle);
    for expected in [1usize, 2, 0, 1] {
        s.finish_cashout(false);
        assert_eq!(s.strategy.as_ref().unwrap().current_index, expected);
        assert_eq!(s.game_phase, GamePhase::Idle);
    }
    assert_eq!(s.game_history.total_losses, 4);
    assert_eq!(s.game_history.total_wins, 1);
    assert_eq!(s.cashout_step(), Some((200.0, 2.0)));
}

#[test]
fn stake_override_is_used_for_every_bet() {
    let mut s = session();
    s.start_auto_play(plan(), false, Some(50.0)).unwrap();
    assert_eq!(s.bet_amount, Some(50.0));
    assert_eq!(s.begin_bet(), Some(BetPlan { stake: 50.0, odd: 100.0, multiplier: 2.0 }));
    s.finish_bet(true);
    s.begin_cashout();
    s.finish_cashout(false);
    assert_eq!(s.begin_bet(), Some(BetPlan { stake: 50.0, odd: 200.0, multiplier: 2.0 }));
    s.stop_auto_play();
    s.start_auto_play(plan(), false, None).unwrap();
    assert_eq!(s.bet_amount, None);
    assert_eq!(s.begin_bet(), Some(BetPlan { stake: 100.0, odd: 100.0, multiplier: 2.0 }));
}

#[test]
fn recorded_readings() {
    let mut s = session();
    s.record_payouts(vec!["1.2x".to_string()]);
    s.record_balance("10.00".to_string());
    s.record_bet_time(1_700_000_000);
    assert_eq!(s.payouts, vec!["1.2x"]);
    assert_eq!(s.current_balance, "10.00");
    assert_eq!(s.last_bet_timestamp, 1_700_000_000);
    assert_eq!(s.game_phase, GamePhase::Idle);
}
