//! Data carried across the authentication boundary: the login request, the
//! minted token, and the claims a verified token asserts.

use vstd::prelude::*;

verus! {

/// Body of a login request: the email the caller claims as identity.
#[derive(Debug, Clone)]
pub struct LoginRequest {
    pub email: String,
}

/// A freshly minted bearer token, handed back to a successful login.
#[derive(Debug, Clone)]
pub struct TokenResponse {
    pub token: String,
}

/// The decoded payload of an identity token: subject, role and absolute
/// expiry (Unix seconds). Claims are reconstructed fresh on each
/// verification and never outlive the request that verified them.
#[derive(Debug, Clone)]
pub struct Claims {
    pub sub: String,
    pub role: String,
    pub exp: u64,
}

impl Claims {
    pub fn new(sub: String, role: String, exp: u64) -> (claims: Claims)
        ensures
            claims.sub@ == sub@,
            claims.role@ == role@,
            claims.exp == exp,
    {
        Claims { sub, role, exp }
    }
}

/// Body of a possession-based login challenge.
#[derive(Debug, Clone)]
pub struct ChallengeRequest {
    pub uhh: String,
}

/// Answer to a possession-based login challenge.
#[derive(Debug, Clone)]
pub struct ChallengeResponse {
    pub umm: String,
}

} // verus!
