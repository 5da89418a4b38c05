//! Access by bearer token: issuing one and checking one.
//!
//! The guard holds one shared secret. It issues a token for a fixed principal
//! and accepts any token that bears a valid signature under the secret, holds
//! the three claims and has not expired. What the claims say is not compared
//! with anything.

use crate::outside::{
    current_timestamp, decode_payload, sign_claims, signed_token, verified_payload,
};
use vstd::prelude::*;

verus! {

/// What a token's payload holds of the three claims; a claim that is missing,
/// or of another JSON type, is `None`.
pub struct Payload {
    pub sub: Option<String>,
    pub company: Option<String>,
    pub exp: Option<u64>,
}

/// The claims of a token: who it is for, which company, and the second since
/// the Unix epoch at which it expires.
pub struct Claims {
    pub sub: String,
    pub company: String,
    pub exp: u64,
}

/// Why no token was issued.
#[derive(Clone, Copy, Debug, PartialEq, Eq, Structural)]
pub enum TokenError {
    /// The signer reported an error.
    Signing,
}

/// The expiry of every issued token, in seconds since the Unix epoch.
pub const TOKEN_EXPIRY: u64 = 10_000_000_000;

/// The subject of every issued token.
pub open spec fn agent_subject() -> Seq<char> {
    "thresh:agent"@
}

/// The company of every issued token.
pub open spec fn agent_company() -> Seq<char> {
    "thresh"@
}

/// A token is expired once its expiry lies in the past.
pub open spec fn expired(exp: u64, now: u64) -> bool {
    exp < now
}

/// Whether the guard lets `token` pass at time `now`: the signature holds under
/// `secret`, all three claims are there, and the expiry is not in the past.
pub open spec fn accepts(token: Seq<char>, secret: Seq<char>, now: u64) -> bool {
    match verified_payload(token, secret) {
        Some((Some(_), Some(_), Some(exp))) => !expired(exp, now),
        _ => false,
    }
}

/// What becomes of the signer's answer: the token, or the guard's own error.
pub fn token_outcome(signed: Result<String, jsonwebtoken::errors::Error>) -> (issued: Result<
    String,
    TokenError,
>)
    ensures
        match signed {
            Ok(token) => issued == Ok::<String, TokenError>(token),
            Err(_) => issued == Err::<String, TokenError>(TokenError::Signing),
        },
{
    match signed {
        Ok(token) => Ok(token),
        Err(_) => Err(TokenError::Signing),
    }
}

/// Issues a token for the agent, signed with `secret`.
///
/// A token is issued for every secret. It is the one the signer writes for
/// the agent's claims; read back under the same secret it holds those claims,
/// and the guard lets it pass under that secret until it expires.
pub fn create_token(secret: &str) -> (issued: Result<String, TokenError>)
    ensures
        issued is Ok,
        issued matches Ok(token) ==> {
            &&& token@ == signed_token(agent_subject(), agent_company(), TOKEN_EXPIRY, secret@)
            &&& verified_payload(token@, secret@) == Some(
                (Some(agent_subject()), Some(agent_company()), Some(TOKEN_EXPIRY)),
            )
            &&& forall|now: u64| now <= TOKEN_EXPIRY ==> accepts(token@, secret@, now)
        },
{
    token_outcome(sign_claims("thresh:agent", "thresh", TOKEN_EXPIRY, secret))
}

/// The claims of a payload that holds all three, `None` where one is missing.
pub fn complete(payload: Payload) -> (claims: Option<Claims>)
    ensures
        match (payload.sub, payload.company, payload.exp) {
            (Some(sub), Some(company), Some(exp)) => claims == Some(
                Claims { sub, company, exp },
            ),
            _ => claims is None,
        },
{
    match (payload.sub, payload.company, payload.exp) {
        (Some(sub), Some(company), Some(exp)) => Some(Claims { sub, company, exp }),
        _ => None,
    }
}

/// Whether a decoded token passes at time `now`: it was decoded, holds all
/// three claims, and its expiry is not in the past.
pub fn verdict(decoded: Result<Payload, jsonwebtoken::errors::Error>, now: u64) -> (accepted: bool)
    ensures
        accepted == match decoded {
            Ok(payload) => payload.sub is Some && payload.company is Some && (payload.exp matches Some(
                exp,
            ) && !expired(exp, now)),
            Err(_) => false,
        },
{
    match decoded {
        Ok(payload) => match complete(payload) {
            Some(claims) => claims.exp >= now,
            None => false,
        },
        Err(_) => false,
    }
}

/// Checks `token` against `secret` as of the time `now`, in seconds since the
/// Unix epoch.
pub fn validator_at(secret: &str, token: &str, now: u64) -> (accepted: bool)
    ensures
        accepted == accepts(token@, secret@, now),
{
    verdict(decode_payload(token, secret), now)
}

/// Checks `token` against `secret` as of now, by this machine's clock.
///
/// Whatever the clock says, a token is accepted only if its signature holds
/// under `secret` and it carries all three claims.
pub fn validator(secret: &str, token: &str) -> (accepted: bool)
    ensures
        exists|now: u64| accepted == accepts(token@, secret@, now),
        accepted ==> verified_payload(token@, secret@) matches Some((Some(_), Some(_), Some(_))),
{
    let now = current_timestamp();
    validator_at(secret, token, now)
}

/// A token whose expiry lies in the past is rejected, whatever the secret.
pub proof fn expired_token_is_rejected(token: Seq<char>, secret: Seq<char>, now: u64)
    requires
        verified_payload(token, secret) matches Some((_, _, Some(exp))) ==> expired(exp, now),
    ensures
        !accepts(token, secret, now),
{
}

/// Acceptance never comes back: a token rejected at one time for its expiry
/// or its signature is rejected at every later time.
pub proof fn rejection_is_final(token: Seq<char>, secret: Seq<char>, now: u64, later: u64)
    requires
        !accepts(token, secret, now),
        now <= later,
    ensures
        !accepts(token, secret, later),
{
}

} // verus!
