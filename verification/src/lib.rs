//! Verified core of the Aviet auto-play service: game phases, the session
//! state machine that drives betting and cashing out, site profiles, the
//! responses the HTTP API sends, the scraping decisions taken on the game
//! page, the request paths of the API client and the desktop client's model.
pub mod phase;
pub mod text;
pub mod sites;
pub mod engine;
pub mod responses;
pub mod page;
pub mod client;
pub mod auth;
pub mod desktop;
