//! Session tokens: the claims they carry and how they are signed.
use vstd::prelude::*;
use crate::text::{uuid_hyphenated, uuid_text};

verus! {

/// How long a token stays valid, in seconds.
pub const TOKEN_LIFETIME_SECS: i64 = 86400;

/// The last whole second, counted from the Unix epoch, that a UTC date-time
/// of `chrono` can hold (the end of year 262142).
pub const LATEST_TIMESTAMP: i64 = 8210266876799;

/// The claims of a session token: the user, the session, and when it was
/// issued and expires, in seconds since the Unix epoch.
#[derive(Debug, Clone)]
pub struct Claims {
    pub sub: String,
    pub session_id: String,
    pub exp: i64,
    pub iat: i64,
}

impl Claims {
    /// The claims of a token issued at `now` for a user's session; it expires a day later.
    pub fn issue(user_id: u128, session_id: u128, now: i64) -> (r: Claims)
        requires
            now <= LATEST_TIMESTAMP - TOKEN_LIFETIME_SECS,
        ensures
            r.sub@ == uuid_hyphenated(user_id),
            r.session_id@ == uuid_hyphenated(session_id),
            r.iat == now,
            r.exp == now + 86400,
    {
        Claims {
            sub: uuid_text(user_id),
            session_id: uuid_text(session_id),
            iat: now,
            exp: now + TOKEN_LIFETIME_SECS,
        }
    }
}

#[verifier::external_type_specification]
#[verifier::external_body]
pub struct ExJwtError(jsonwebtoken::errors::Error);

/// Why a token could not be made.
#[derive(Debug)]
pub enum TokenError {
    /// `jsonwebtoken` refused to encode or sign the claims.
    Jwt(jsonwebtoken::errors::Error),
}

/// The token `jsonwebtoken::encode` makes with the default header (HS256) for
/// the claims object `{"sub", "session_id", "exp", "iat"}` (in that order),
/// signed with the bytes of `secret`.
pub uninterp spec fn hs256_token(sub: Seq<char>, session_id: Seq<char>, exp: i64, iat: i64, secret: Seq<char>) -> Seq<char>;

/// Calls `jsonwebtoken::encode` with the default header, the claims as a JSON
/// object in the field order of `Claims`, and an HMAC key made from the secret's
/// bytes. Its result is named `hs256_token`. It succeeds: in jsonwebtoken 9.3.1
/// `encode` fails only when the key's algorithm family differs from the
/// header's (both are HMAC here: the default header is HS256 and
/// `EncodingKey::from_secret` makes an HMAC key), when `serde_json` cannot
/// serialise the header or claims (it can serialise these string and integer
/// fields), or when signing fails (HMAC signing always returns `Ok`).
#[verifier::external_body]
fn encode_claims(sub: &str, session_id: &str, exp: i64, iat: i64, secret: &str) -> (r: Result<String, jsonwebtoken::errors::Error>)
    ensures
        r is Ok,
        r matches Ok(t) ==> t@ == hs256_token(sub@, session_id@, exp, iat, secret@),
{
    let mut m = serde_json::Map::new();
    m.insert("sub".to_string(), serde_json::Value::from(sub));
    m.insert("session_id".to_string(), serde_json::Value::from(session_id));
    m.insert("exp".to_string(), serde_json::Value::from(exp));
    m.insert("iat".to_string(), serde_json::Value::from(iat));
    let key = jsonwebtoken::EncodingKey::from_secret(secret.as_bytes());
    jsonwebtoken::encode(&jsonwebtoken::Header::default(), &serde_json::Value::Object(m), &key)
}

/// The outcome of encoding: the token, or the library's error carrying the encoder's.
pub fn token_outcome(encoded: Result<String, jsonwebtoken::errors::Error>) -> (r: Result<String, TokenError>)
    ensures
        encoded matches Ok(t) ==> r == Ok::<String, TokenError>(t),
        encoded matches Err(e) ==> r matches Err(TokenError::Jwt(e2)) && e2 == e,
{
    match encoded {
        Ok(t) => Ok(t),
        Err(e) => Err(TokenError::Jwt(e)),
    }
}

/// A signed token for a user's session, issued at `now` and valid for a day.
pub fn create_token_at(user_id: u128, session_id: u128, secret: &str, now: i64) -> (r: Result<String, TokenError>)
    requires
        now <= LATEST_TIMESTAMP - TOKEN_LIFETIME_SECS,
    ensures
        r matches Ok(t) && t@ == hs256_token(uuid_hyphenated(user_id), uuid_hyphenated(session_id), (now + 86400) as i64, now, secret@),
{
    let claims = Claims::issue(user_id, session_id, now);
    token_outcome(encode_claims(claims.sub.as_str(), claims.session_id.as_str(), claims.exp, claims.iat, secret))
}

} // verus!
