//! Where the API client sends each request.
use vstd::prelude::*;
use crate::text::{join, owned, uuid_hyphenated, uuid_text};

verus! {

/// The server address and the token the client authenticates with.
#[derive(Debug, Clone)]
pub struct ApiConfig {
    pub base_url: String,
    pub auth_token: Option<String>,
}

/// The endpoints of the API; the ids are the 128 bits of session UUIDs.
#[derive(Debug, Clone, Copy, PartialEq, Eq, Structural)]
pub enum ApiRoute {
    Login,
    Logout(u128),
    GameState(u128),
    StartAutoPlay,
    StopAutoPlay,
    Payouts(u128),
    Balance(u128),
    GenerateStrategy,
    ListStrategies,
    History(u128),
    Sites,
    Status,
}

pub open spec fn spec_route_path(route: ApiRoute) -> Seq<char> {
    match route {
        ApiRoute::Login => "/api/auth/login"@,
        ApiRoute::Logout(id) => "/api/auth/logout/"@ + uuid_hyphenated(id),
        ApiRoute::GameState(id) => "/api/game/state/"@ + uuid_hyphenated(id),
        ApiRoute::StartAutoPlay => "/api/game/auto-play/start"@,
        ApiRoute::StopAutoPlay => "/api/game/auto-play/stop"@,
        ApiRoute::Payouts(id) => "/api/game/payouts/"@ + uuid_hyphenated(id),
        ApiRoute::Balance(id) => "/api/game/balance/"@ + uuid_hyphenated(id),
        ApiRoute::GenerateStrategy => "/api/strategy/generate"@,
        ApiRoute::ListStrategies => "/api/strategy/list"@,
        ApiRoute::History(id) => "/api/game/history/"@ + uuid_hyphenated(id),
        ApiRoute::Sites => "/api/sites"@,
        ApiRoute::Status => "/api/status"@,
    }
}

pub open spec fn spec_route_is_post(route: ApiRoute) -> bool {
    route is Login || route is Logout || route is StartAutoPlay || route is StopAutoPlay || route is GenerateStrategy
}

fn with_id(prefix: &str, id: u128) -> (r: String)
    ensures
        r@ == prefix@ + uuid_hyphenated(id),
{
    let t = uuid_text(id);
    join(prefix, t.as_str())
}

impl ApiRoute {
    /// The path of the endpoint.
    pub fn path(&self) -> (r: String)
        ensures
            r@ == spec_route_path(*self),
    {
        match self {
            ApiRoute::Login => owned("/api/auth/login"),
            ApiRoute::Logout(id) => with_id("/api/auth/logout/", *id),
            ApiRoute::GameState(id) => with_id("/api/game/state/", *id),
            ApiRoute::StartAutoPlay => owned("/api/game/auto-play/start"),
            ApiRoute::StopAutoPlay => owned("/api/game/auto-play/stop"),
            ApiRoute::Payouts(id) => with_id("/api/game/payouts/", *id),
            ApiRoute::Balance(id) => with_id("/api/game/balance/", *id),
            ApiRoute::GenerateStrategy => owned("/api/strategy/generate"),
            ApiRoute::ListStrategies => owned("/api/strategy/list"),
            ApiRoute::History(id) => with_id("/api/game/history/", *id),
            ApiRoute::Sites => owned("/api/sites"),
            ApiRoute::Status => owned("/api/status"),
        }
    }

    /// Whether the endpoint is called with POST (otherwise GET).
    pub fn is_post(&self) -> (r: bool)
        ensures
            r == spec_route_is_post(*self),
    {
        match self {
            ApiRoute::Login | ApiRoute::Logout(_) | ApiRoute::StartAutoPlay | ApiRoute::StopAutoPlay
            | ApiRoute::GenerateStrategy => true,
            _ => false,
        }
    }
}

impl ApiConfig {
    /// A client of the server on the local machine, without a token.
    pub fn new() -> (r: ApiConfig)
        ensures
            r.base_url@ == "http://localhost:8080"@,
            r.auth_token is None,
    {
        ApiConfig { base_url: owned("http://localhost:8080"), auth_token: None }
    }

    /// The same client aimed at another server.
    pub fn with_base_url(self, url: &str) -> (r: ApiConfig)
        ensures
            r.base_url@ == url@,
            r.auth_token == self.auth_token,
    {
        ApiConfig { base_url: owned(url), ..self }
    }

    /// The same client authenticating with `token`.
    pub fn with_token(self, token: String) -> (r: ApiConfig)
        ensures
            r.base_url == self.base_url,
            r.auth_token == Some(token),
    {
        ApiConfig { auth_token: Some(token), ..self }
    }

    /// The full address of a path on the server.
    pub fn url(&self, path: &str) -> (r: String)
        ensures
            r@ == self.base_url@ + path@,
    {
        join(self.base_url.as_str(), path)
    }

    /// The full address of an endpoint.
    pub fn route_url(&self, route: ApiRoute) -> (r: String)
        ensures
            r@ == self.base_url@ + spec_route_path(route),
    {
        let p = route.path();
        join(self.base_url.as_str(), p.as_str())
    }
}


/// Every endpoint that changes the server's state (logging in and out,
/// starting and stopping auto-play, generating a plan) is called with POST,
/// and every read-only one with GET, whatever session it is about.
pub proof fn lemma_route_methods(id: u128)
    ensures
        spec_route_is_post(ApiRoute::Login),
        spec_route_is_post(ApiRoute::Logout(id)),
        spec_route_is_post(ApiRoute::StartAutoPlay),
        spec_route_is_post(ApiRoute::StopAutoPlay),
        spec_route_is_post(ApiRoute::GenerateStrategy),
        !spec_route_is_post(ApiRoute::GameState(id)),
        !spec_route_is_post(ApiRoute::Payouts(id)),
        !spec_route_is_post(ApiRoute::Balance(id)),
        !spec_route_is_post(ApiRoute::History(id)),
        !spec_route_is_post(ApiRoute::ListStrategies),
        !spec_route_is_post(ApiRoute::Sites),
        !spec_route_is_post(ApiRoute::Status),
{
}

} // verus!
