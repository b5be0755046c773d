use aviet::auth::Claims;
use aviet::page::{is_payout_text, lowered_label_marks_game, lowered_src_marks_game};
use aviet::responses::lowered_shows_waiting;
use aviet::client::{ApiConfig, ApiRoute};
use aviet::engine::SessionState;
use aviet::page::{
    frame_step, FrameStep,
    amount_digits, balance_label, balance_selectors, choose_iframe, iframe_failure, label_marks_game,
    login_outcome, login_page_url, payout_labels, src_marks_game, IframeAttrs, IframeChoice, IFRAME_ATTEMPTS,
};
use aviet::phase::GamePhase;
use aviet::responses::{
    auto_play_failure, auto_play_refusal, auto_play_response, balance_error, balance_found, balance_not_found,
    balance_session_not_found, bet_arguments, button_shows_cashout, button_shows_waiting, game_state_snapshot,
    history_response, login_response, navigation_failure, payout_summary, payouts_or_recorded, session_game_state,
    session_not_found, strategy_name, ButtonReading, GameHistoryResponse, LoginStage, ServerStatus,
};
use aviet::sites::{available_sites, betika_profile, get_site_profile, site_profile_for_key};
use aviet::text::{trim, u64_text, uuid_text};

const ID: u128 = 0x67e5504410b1426f9247bb680e5fe0c8;
const ID_TEXT: &str = "67e55044-10b1-426f-9247-bb680e5fe0c8";

fn frame(src: Option<&str>, id: Option<&str>, name: Option<&str>) -> IframeAttrs {
    IframeAttrs {
        src: src.map(|s| s.to_string()),
        id: id.map(|s| s.to_string()),
        name: name.map(|s| s.to_string()),
    }
}

#[test]
fn text_helpers() {
    assert_eq!(uuid_text(ID), ID_TEXT);
    assert_eq!(uuid_text(0), "00000000-0000-0000-0000-000000000000");
    assert_eq!(u64_text(0), "0");
    assert_eq!(u64_text(18446744073709551615), "18446744073709551615");
    assert_eq!(trim("  12.5x \n"), "12.5x");
}

#[test]
fn site_lookup_ignores_case() {
    let p = get_site_profile("BeTiKa").unwrap();
    assert_eq!(p.name, "Betika");
    assert_eq!(p.url, "https://www.betika.com/en-ke/");
    assert_eq!(p.login_url, "https://www.betika.com/en-ke/login");
    assert_eq!(p.aviator_url, "https://www.betika.com/en-ke/aviator");
    assert_eq!(p.phone_selector, "input[name='phone-number']");
    assert_eq!(p.password_selector, "input[type='password']");
    assert_eq!(p.login_button_selector, "button[type='submit']");
    assert_eq!(p.logged_in_indicator.as_deref(), Some("span.nav__item__label"));
    assert!(get_site_profile("SportPesa").is_none());
    assert!(get_site_profile("").is_none());
    assert!(site_profile_for_key("Betika").is_none());
    assert!(site_profile_for_key("betika").is_some());
}

#[test]
fn every_listed_site_resolves_by_name() {
    let listed = available_sites();
    assert_eq!(listed.sites.len(), 1);
    for site in &listed.sites {
        let found = get_site_profile(&site.name).unwrap();
        assert_eq!(found.url, site.url);
        assert_eq!(found.aviator_url, site.aviator_url);
    }
    assert_eq!(listed.sites[0].name, betika_profile().name);
}

#[test]
fn login_responses() {
    let r = login_response("Foo", ID, LoginStage::UnknownSite);
    assert!(!r.success);
    assert_eq!(r.session_id, 0);
    assert_eq!(r.message, "Unknown site: Foo");
    assert_eq!(r.balance, None);
    let r = login_response("Betika", ID, LoginStage::BrowserFailed("no driver".to_string()));
    assert_eq!((r.success, r.session_id, r.message.as_str()), (false, ID, "Browser error: no driver"));
    let r = login_response("Betika", ID, LoginStage::Rejected("Login failed - still on login page".to_string()));
    assert_eq!((r.success, r.message.as_str()), (false, "Login failed - still on login page"));
    let r = login_response("Betika", ID, LoginStage::LoggedIn("Login successful".to_string()));
    assert!(r.success);
    assert_eq!(r.session_id, ID);
    assert_eq!(r.balance.as_deref(), Some("0.00"));
}

#[test]
fn auto_play_responses() {
    assert_eq!(auto_play_refusal::<f64>(None).as_deref(), Some("Session not found"));
    let mut s: SessionState<f64> = SessionState::new(betika_profile());
    assert_eq!(auto_play_refusal(Some(&s)), None);
    s.auto_play_active = true;
    assert_eq!(auto_play_refusal(Some(&s)).as_deref(), Some("Auto-play already active"));
    let r = navigation_failure(ID, "timeout");
    assert_eq!((r.success, r.message.as_str(), r.session_id), (false, "Failed to navigate to Aviator: timeout", ID));
    let r = auto_play_response(ID, Ok("Auto-play started".to_string()));
    assert!(r.success);
    let r = auto_play_response(ID, Err("Session not found".to_string()));
    assert!(!r.success);
    assert_eq!(r.message, session_not_found());
    let r = auto_play_failure(7, "x".to_string());
    assert_eq!((r.success, r.session_id), (false, 7));
}

#[test]
fn balance_responses() {
    let b = balance_found(".balance-amount", "1,250.00");
    assert!(b.success);
    assert_eq!(b.balance.as_deref(), Some("1,250.00"));
    assert_eq!(b.currency, "KES");
    assert_eq!(b.source, "selector: .balance-amount");
    assert_eq!(b.error, None);
    let b = balance_not_found();
    assert_eq!((b.success, b.source.as_str(), b.error.as_deref()), (false, "error", Some("Balance element not found")));
    let b = balance_error("gone".to_string());
    assert_eq!((b.source.as_str(), b.error.as_deref()), ("error", Some("gone")));
    let b = balance_session_not_found();
    assert_eq!((b.source.as_str(), b.error.as_deref(), b.currency.as_str()), ("session_not_found", Some("Session not found"), "KES"));
    assert_eq!(balance_selectors(), vec![".balance-amount", "[class*='balance']", "[class*='amount']", ".header-right span"]);
    assert_eq!(balance_label("  KES 10.00 "), Some("KES 10.00".to_string()));
    assert_eq!(balance_label("   "), None);
}

#[test]
fn payouts() {
    let texts = vec![" 1.23x ".to_string(), "".to_string(), "abc".to_string(), "2.50x".to_string(), "  ".to_string()];
    let labels = payout_labels(&texts);
    assert_eq!(labels, vec!["1.23x", "2.50x"]);
    let s = payout_summary(labels.clone());
    assert_eq!(s.count, 2);
    assert_eq!(s.latest.as_deref(), Some("2.50x"));
    let s = payout_summary(vec![]);
    assert_eq!((s.count, s.latest), (0, None));
    let recorded = vec!["9.99x".to_string()];
    assert_eq!(payouts_or_recorded(Err("page".to_string()), &recorded), recorded);
    assert_eq!(payouts_or_recorded(Ok(vec!["1.00x".to_string()]), &recorded), vec!["1.00x"]);
}

#[test]
fn game_state_views() {
    let mut s: SessionState<f64> = SessionState::new(betika_profile());
    s.payouts = vec!["1.5x".to_string(), "3.2x".to_string()];
    s.current_balance = "55.00".to_string();
    let g = session_game_state(Some(&s), 0.0);
    assert_eq!(g.phase, GamePhase::Idle);
    assert_eq!((g.payout_count, g.latest_payout.as_deref()), (2, Some("3.2x")));
    assert_eq!((g.current_odd, g.current_multiplier, g.cashout_target), (0.0, 0.0, 0.0));
    assert_eq!(g.current_balance, "55.00");
    s.start_auto_play(aviet::engine::StrategyData::new(vec![(100.0, 2.0)], 200.0), false, None).unwrap();
    let g = session_game_state(Some(&s), 0.0);
    assert_eq!((g.current_odd, g.current_multiplier), (100.0, 2.0));
    assert!(g.auto_play_active);
    let g = session_game_state::<f64>(None, 0.0);
    assert_eq!(g.phase, GamePhase::Error("Session not found".to_string()));
    assert_eq!(g.current_balance, "0.00");
    let button = ButtonReading {
        class: "btn btn-warning".to_string(),
        text: "Cash Out".to_string(),
        cashout_amount: Some("250.00 KES".to_string()),
    };
    let g = game_state_snapshot(&s, button, 0.0);
    assert!(g.is_cashout_available);
    assert!(!g.is_waiting);
    assert_eq!(g.cashout_amount.as_deref(), Some("250.00 KES"));
    assert_eq!(g.bet_button_class, "btn btn-warning");
    let button = ButtonReading {
        class: "btn btn-danger".to_string(),
        text: "WAITING for next round".to_string(),
        cashout_amount: Some("12.00".to_string()),
    };
    let g = game_state_snapshot(&s, button, 0.0);
    assert!(!g.is_cashout_available);
    assert!(g.is_waiting);
    assert_eq!(g.cashout_amount, None);
    assert!(button_shows_cashout("x cashout"));
    assert!(!button_shows_cashout("btn-success"));
    assert!(button_shows_waiting("Waiting"));
    let h: GameHistoryResponse<u8> = history_response(Some(&s));
    assert!(h.rounds.is_empty());
    let h: GameHistoryResponse<u8> = history_response::<f64, u8>(None);
    assert_eq!((h.total_wins, h.total_losses, h.current_strategy_index), (0, 0, 0));
}

#[test]
fn manual_bet_and_names() {
    let (a, o, m) = bet_arguments(None, None, None);
    assert_eq!((a.as_str(), o.as_str(), m.as_str()), ("100", "2.0", "1.5"));
    let (a, o, m) = bet_arguments(Some("50"), Some("3.0"), None);
    assert_eq!((a.as_str(), o.as_str(), m.as_str()), ("50", "3.0", "1.5"));
    assert_eq!(strategy_name(Some("Mine".to_string()), ID), "Mine");
    assert_eq!(strategy_name(None, ID), format!("Strategy {}", ID_TEXT));
    let st = ServerStatus::report("0.1.0".to_string(), 42, 3);
    assert!(st.database_connected);
    assert_eq!((st.uptime_seconds, st.active_sessions), (42, 3));
}

#[test]
fn page_navigation() {
    assert_eq!(login_page_url("https://www.betika.com/en-ke/"), "https://www.betika.com/en-ke/login");
    assert_eq!(login_page_url("https://x.com///"), "https://x.com/login");
    assert_eq!(login_page_url("https://x.com"), "https://x.com/login");
    assert_eq!(login_outcome("https://www.betika.com/en-ke/login"), Err("Login failed - still on login page".to_string()));
    assert_eq!(login_outcome("https://www.betika.com/en-ke/"), Ok("Login successful".to_string()));
    assert!(src_marks_game("https://cdn.SPRIBE.co/x"));
    assert!(!src_marks_game("https://ads.example.com"));
    assert!(label_marks_game("AviatorFrame"));
    assert!(!label_marks_game("chat"));
    assert_eq!(IFRAME_ATTEMPTS, 10);
    assert_eq!(iframe_failure(), "Could not enter Aviator iframe after 10 attempts");
}

#[test]
fn iframe_choice() {
    assert_eq!(choose_iframe(&vec![]), IframeChoice::Retry);
    let frames = vec![
        frame(Some("https://ads.example.com"), Some("game-ad"), None),
        frame(Some("https://launch.spribe.co/aviator"), None, None),
    ];
    assert_eq!(choose_iframe(&frames), IframeChoice::BySource(1));
    let frames = vec![
        frame(Some("https://ads.example.com"), None, Some("chat")),
        frame(None, None, Some("GameWindow")),
        frame(None, Some("aviator"), None),
    ];
    assert_eq!(choose_iframe(&frames), IframeChoice::ByLabel(1));
    let frames = vec![frame(None, None, None), frame(Some("https://ads.example.com"), Some("x"), Some("y"))];
    assert_eq!(choose_iframe(&frames), IframeChoice::Probe { fallback: 1 });
}

#[test]
fn cashout_amount_text() {
    assert_eq!(amount_digits("KES 1,234.50"), "1234.50");
    assert_eq!(amount_digits("2.15x"), "2.15");
    assert_eq!(amount_digits(""), "");
}

#[test]
fn client_routes() {
    let c = ApiConfig::new();
    assert_eq!(c.base_url, "http://localhost:8080");
    assert_eq!(c.auth_token, None);
    assert_eq!(c.url("/api/status"), "http://localhost:8080/api/status");
    let c = c.with_base_url("http://server:9000").with_token("tok".to_string());
    assert_eq!(c.auth_token.as_deref(), Some("tok"));
    assert_eq!(c.route_url(ApiRoute::Sites), "http://server:9000/api/sites");
    assert_eq!(ApiRoute::Logout(ID).path(), format!("/api/auth/logout/{}", ID_TEXT));
    assert_eq!(ApiRoute::GameState(ID).path(), format!("/api/game/state/{}", ID_TEXT));
    assert_eq!(ApiRoute::Payouts(ID).path(), format!("/api/game/payouts/{}", ID_TEXT));
    assert_eq!(ApiRoute::Balance(ID).path(), format!("/api/game/balance/{}", ID_TEXT));
    assert_eq!(ApiRoute::History(ID).path(), format!("/api/game/history/{}", ID_TEXT));
    assert_eq!(ApiRoute::Login.path(), "/api/auth/login");
    assert_eq!(ApiRoute::StartAutoPlay.path(), "/api/game/auto-play/start");
    assert_eq!(ApiRoute::StopAutoPlay.path(), "/api/game/auto-play/stop");
    assert_eq!(ApiRoute::GenerateStrategy.path(), "/api/strategy/generate");
    assert_eq!(ApiRoute::ListStrategies.path(), "/api/strategy/list");
    assert_eq!(ApiRoute::Status.path(), "/api/status");
    assert!(ApiRoute::Login.is_post());
    assert!(ApiRoute::Logout(ID).is_post());
    assert!(!ApiRoute::Sites.is_post());
    assert!(!ApiRoute::History(ID).is_post());
}

#[test]
fn token_claims() {
    let c = Claims::issue(ID, 1, 1_700_000_000);
    assert_eq!(c.sub, ID_TEXT);
    assert_eq!(c.session_id, "00000000-0000-0000-0000-000000000001");
    assert_eq!(c.iat, 1_700_000_000);
    assert_eq!(c.exp, 1_700_086_400);
}

#[test]
fn signed_token_carries_claims() {
    let now = chrono::Utc::now().timestamp();
    let token = aviet::auth::create_token_at(ID, 1, "secret", now).unwrap();
    let data = jsonwebtoken::decode::<serde_json::Value>(
        &token,
        &jsonwebtoken::DecodingKey::from_secret(b"secret"),
        &jsonwebtoken::Validation::new(jsonwebtoken::Algorithm::HS256),
    )
    .unwrap();
    let expected = format!(
        "{{\"sub\":\"{}\",\"session_id\":\"00000000-0000-0000-0000-000000000001\",\"exp\":{},\"iat\":{}}}",
        ID_TEXT,
        now + 86400,
        now
    );
    assert_eq!(serde_json::to_string(&data.claims).unwrap(), expected);
    let again = aviet::auth::create_token_at(ID, 1, "secret", now).unwrap();
    assert_eq!(token, again);
    let other = aviet::auth::create_token_at(ID, 1, "other", now).unwrap();
    assert_ne!(token, other);
}

#[test]
fn lowered_checks() {
    assert!(lowered_shows_waiting("waiting for next round"));
    assert!(!lowered_shows_waiting("WAITING"));
    assert!(lowered_src_marks_game("https://casino.example/x"));
    assert!(!lowered_src_marks_game("https://CASINO.example/x"));
    assert!(lowered_label_marks_game("my-game"));
    assert!(!lowered_label_marks_game("chat"));
    assert!(is_payout_text("1.5x"));
    assert!(!is_payout_text("1.5"));
    assert!(!is_payout_text(""));
}

#[test]
fn token_outcomes() {
    let ok = aviet::auth::token_outcome(Ok("abc".to_string()));
    assert_eq!(ok.unwrap(), "abc");
    let err = aviet::auth::token_outcome(Err(jsonwebtoken::errors::Error::from(
        jsonwebtoken::errors::ErrorKind::InvalidToken,
    )));
    match err {
        Err(aviet::auth::TokenError::Jwt(e)) => {
            assert!(matches!(e.kind(), jsonwebtoken::errors::ErrorKind::InvalidToken));
        }
        Ok(_) => panic!("expected an error"),
    }
}

#[test]
fn frame_search_steps() {
    assert_eq!(frame_step(0, IframeChoice::BySource(2)), FrameStep::Enter(2));
    assert_eq!(frame_step(3, IframeChoice::ByLabel(1)), FrameStep::Enter(1));
    assert_eq!(frame_step(9, IframeChoice::Probe { fallback: 4 }), FrameStep::Probe { fallback: 4 });
    assert_eq!(frame_step(0, IframeChoice::Retry), FrameStep::Wait);
    assert_eq!(frame_step(8, IframeChoice::Retry), FrameStep::Wait);
    assert_eq!(frame_step(9, IframeChoice::Retry), FrameStep::GiveUp);
}

#[test]
fn request_session_ids() {
    assert_eq!(aviet::responses::body_session_id(Some(ID_TEXT)), ID);
    assert_eq!(aviet::responses::body_session_id(Some("67E55044-10B1-426F-9247-BB680E5FE0C8")), ID);
    assert_eq!(aviet::responses::body_session_id(Some("not-a-uuid")), 0);
    assert_eq!(aviet::responses::body_session_id(None), 0);
    assert_eq!(aviet::text::parse_uuid(ID_TEXT), Some(ID));
    assert_eq!(aviet::text::parse_uuid(""), None);
}

#[test]
fn browser_arguments() {
    let base = vec!["--width=1480", "--height=1080", "--no-sandbox", "--disable-dev-shm-usage", "--disable-gpu"];
    assert_eq!(aviet::page::browser_args(false), base);
    let mut headless = base.clone();
    headless.push("--headless");
    assert_eq!(aviet::page::browser_args(true), headless);
}
