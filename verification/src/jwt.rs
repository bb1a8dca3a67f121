//! Token claims. Signing and verifying the tokens themselves is a
//! collaborator's job; what is built here is the claim set: subject,
//! user id, and the issue and expiry instants.

use vstd::prelude::*;

verus! {

/// Claims of a short-lived access token.
pub struct AccessClaims {
    pub sub: String,
    pub user_id: i64,
    pub exp: i64,
    pub iat: i64,
}

/// Claims of a long-lived refresh token.
pub struct RefreshClaims {
    pub sub: String,
    pub user_id: i64,
    pub exp: i64,
    pub iat: i64,
}

/// Builds access-token claims issued at `now` and expiring `ttl` seconds
/// later.
pub fn make_access_claims(username: &str, user_id: i64, now: i64, ttl: i64) -> (c: AccessClaims)
    requires
        i64::MIN <= now + ttl <= i64::MAX,
    ensures
        c.sub@ == username@,
        c.user_id == user_id,
        c.iat == now,
        c.exp == now + ttl,
{
    AccessClaims { sub: username.to_owned(), user_id, exp: now + ttl, iat: now }
}

/// Builds refresh-token claims issued at `now` and expiring `ttl` seconds
/// later.
pub fn make_refresh_claims(username: &str, user_id: i64, now: i64, ttl: i64) -> (c: RefreshClaims)
    requires
        i64::MIN <= now + ttl <= i64::MAX,
    ensures
        c.sub@ == username@,
        c.user_id == user_id,
        c.iat == now,
        c.exp == now + ttl,
{
    RefreshClaims { sub: username.to_owned(), user_id, exp: now + ttl, iat: now }
}

} // verus!
