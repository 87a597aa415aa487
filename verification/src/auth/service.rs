//! The token service: mint a signed bearer token asserting a subject's
//! identity and role, and verify a presented token's authenticity and
//! freshness. Signing and signature checking are delegated to the JWT
//! library; everything here is specified over two named results of that
//! library, `token_of` and `payload_of`.

use vstd::prelude::*;
use vstd::string::StringExecFns;
use crate::auth::models::{Claims, TokenResponse};
use crate::error::AppError;
use crate::user::models::{spec_role_str, User};

verus! {

/// Lifetime of a minted token: its expiry is this many seconds past the
/// mint time.
pub const TOKEN_TTL_SECS: u64 = 86400;

/// Why a presented token was rejected: `Invalid` covers a malformed
/// token, a bad signature and a secret deriving a different signing key
/// than the minting one; `Expired` a token past its expiry.
#[derive(Debug, Clone, Copy, PartialEq, Eq, Structural)]
pub enum TokenError {
    Invalid,
    Expired,
}

/// The token the JWT library signs for the given claims and secret. The
/// encoding is deterministic, so the token is a function of these
/// arguments alone.
pub uninterp spec fn token_of(sub: Seq<char>, role: Seq<char>, exp: u64, secret: Seq<char>) -> Seq<char>;

/// The claims the JWT library reads out of a token under a secret, when
/// the token is well-formed and its signature checks out under that
/// secret; `None` otherwise. Signature checking is deterministic, so the
/// outcome is a function of these arguments alone.
pub uninterp spec fn payload_of(token: Seq<char>, secret: Seq<char>) -> Option<(Seq<char>, Seq<char>, u64)>;

/// The MAC key the HMAC layer derives from a secret: secrets shorter than
/// the 64-byte hash block are zero-padded to it, longer ones are hashed
/// first. Distinct strings can therefore derive the same key (one being
/// the other with trailing NULs, or two long secrets with equal digests),
/// and only the derived key enters the signature.
pub uninterp spec fn hmac_key_of(secret: Seq<char>) -> Seq<u8>;

/// A token that is bound to exactly these claims and this secret: it is
/// nonempty, it is the one the library signs for them, it carries them
/// under `secret`, and it carries nothing under any secret whose derived
/// MAC key differs.
pub open spec fn spec_token_binds(
    token: Seq<char>,
    sub: Seq<char>,
    role: Seq<char>,
    exp: u64,
    secret: Seq<char>,
) -> bool {
    &&& token.len() > 0
    &&& token == token_of(sub, role, exp, secret)
    &&& payload_of(token, secret) == Some((sub, role, exp))
    &&& forall|other: Seq<char>|
        hmac_key_of(other) != hmac_key_of(secret) ==> #[trigger] payload_of(token, other) is None
}

/// A token bound to these claims at some expiry no earlier than one full
/// lifetime past the epoch.
pub open spec fn spec_fresh_token(
    token: Seq<char>,
    sub: Seq<char>,
    role: Seq<char>,
    secret: Seq<char>,
) -> bool {
    exists|exp: u64|
        exp >= TOKEN_TTL_SECS && #[trigger] spec_token_binds(token, sub, role, exp, secret)
}

/// Relies on jsonwebtoken::encode with the default HS256 header: the
/// returned token is signed with `secret` over exactly the claims
/// `{sub, role, exp}`, so it carries those claims under `secret` and —
/// the signature binds it to the derived MAC key — no claims under any
/// secret deriving a different key. Encoding always succeeds: the key
/// family matches the header, HMAC accepts any key length, and
/// serializing a string-keyed map cannot fail. Both promises hold for the
/// crate's own crypto provider; a process that installs a custom one
/// before first use voids them.
#[verifier::external_body]
fn encode_claims(sub: &str, role: &str, exp: u64, secret: &str) -> (token: Option<String>)
    ensures
        token is Some,
        token matches Some(t) ==> t@.len() > 0,
        token matches Some(t) ==> t@ == token_of(sub@, role@, exp, secret@),
        token matches Some(t) ==> forall|other: Seq<char>|
            hmac_key_of(other) != hmac_key_of(secret@) ==> #[trigger] payload_of(t@, other) is None,
        token matches Some(t) ==> spec_token_binds(t@, sub@, role@, exp, secret@),
{
    let mut claims = serde_json::Map::new();
    claims.insert("sub".to_string(), serde_json::Value::String(sub.to_string()));
    claims.insert("role".to_string(), serde_json::Value::String(role.to_string()));
    claims.insert("exp".to_string(), serde_json::Value::from(exp));
    let key = jsonwebtoken::EncodingKey::from_secret(secret.as_bytes());
    let body = serde_json::Value::Object(claims);
    jsonwebtoken::encode(&jsonwebtoken::Header::default(), &body, &key).ok()
}

/// Relies on jsonwebtoken::decode checking the HS256 signature only
/// (expiry is judged by the callers against an explicit clock, so the
/// outcome is a function of the token and the secret alone): it returns
/// the claims of a token that verifies under `secret` and fails on every
/// other. This holds for the crate's own crypto provider; a process that
/// installs a custom one before first use voids it.
#[verifier::external_body]
fn decode_claims(token: &str, secret: &str) -> (payload: Option<(String, String, u64)>)
    ensures
        payload matches Some(p) ==> payload_of(token@, secret@) == Some((p.0@, p.1@, p.2)),
        payload is None ==> payload_of(token@, secret@) is None,
{
    let mut validation = jsonwebtoken::Validation::default();
    validation.validate_exp = false;
    validation.required_spec_claims.clear();
    let key = jsonwebtoken::DecodingKey::from_secret(secret.as_bytes());
    let data = jsonwebtoken::decode::<serde_json::Value>(token, &key, &validation).ok()?;
    let sub = data.claims.get("sub")?.as_str()?.to_string();
    let role = data.claims.get("role")?.as_str()?.to_string();
    let exp = data.claims.get("exp")?.as_u64()?;
    Some((sub, role, exp))
}

/// Relies on std::time::UNIX_EPOCH.elapsed: the seconds the system clock
/// has advanced past the Unix epoch (zero should the clock sit before the
/// epoch). Nothing is promised of the value; callers state what holds
/// whatever the clock read.
#[verifier::external_body]
fn unix_now() -> u64 {
    match std::time::UNIX_EPOCH.elapsed() {
        Ok(elapsed) => elapsed.as_secs(),
        Err(_) => 0,
    }
}

/// Mint a token asserting `subject` and `role`, expiring exactly
/// `TOKEN_TTL_SECS` past `now`, signed with `secret`.
pub fn mint(subject: &str, role: &str, secret: &str, now: u64) -> (result: Result<
    TokenResponse,
    AppError,
>)
    requires
        now <= u64::MAX - TOKEN_TTL_SECS,
    ensures
        result is Ok,
        result matches Ok(resp) ==> spec_token_binds(
            resp.token@,
            subject@,
            role@,
            (now + TOKEN_TTL_SECS) as u64,
            secret@,
        ),
{
    let exp = now + TOKEN_TTL_SECS;
    match encode_claims(subject, role, exp, secret) {
        Some(token) => Ok(TokenResponse { token }),
        None => Err(AppError::InternalServerError),
    }
}

/// Mint a token for `user_id` with `role`, expiring one day past the
/// process clock's present reading.
pub fn generate_jwt(user_id: &str, role: &str, secret: &str) -> (result: Result<
    TokenResponse,
    AppError,
>)
    ensures
        result matches Ok(resp) ==> spec_fresh_token(resp.token@, user_id@, role@, secret@),
        result matches Err(e) ==> e is InternalServerError,
{
    let now = unix_now();
    if now <= u64::MAX - TOKEN_TTL_SECS {
        mint(user_id, role, secret, now)
    } else {
        Err(AppError::InternalServerError)
    }
}

/// What verification answers for a given payload at a given instant:
/// no payload is `Invalid`, a stale payload is `Expired`, a fresh one is
/// accepted.
pub open spec fn spec_verify(payload: Option<(Seq<char>, Seq<char>, u64)>, now: u64) -> Result<
    (Seq<char>, Seq<char>, u64),
    TokenError,
> {
    match payload {
        None => Err(TokenError::Invalid),
        Some(p) => if p.2 <= now {
            Err(TokenError::Expired)
        } else {
            Ok(p)
        },
    }
}

/// Verify a presented token against `secret`, judging freshness at the
/// instant `now`.
pub fn verify_at(token: &str, secret: &str, now: u64) -> (result: Result<Claims, TokenError>)
    ensures
        match result {
            Ok(claims) => spec_verify(payload_of(token@, secret@), now) == Ok::<
                (Seq<char>, Seq<char>, u64),
                TokenError,
            >((claims.sub@, claims.role@, claims.exp)),
            Err(e) => spec_verify(payload_of(token@, secret@), now) == Err::<
                (Seq<char>, Seq<char>, u64),
                TokenError,
            >(e),
        },
{
    match decode_claims(token, secret) {
        None => Err(TokenError::Invalid),
        Some((sub, role, exp)) => {
            if exp <= now {
                Err(TokenError::Expired)
            } else {
                Ok(Claims { sub, role, exp })
            }
        },
    }
}

/// Verify a presented token against `secret`, judging freshness by the
/// process clock.
pub fn verify(token: &str, secret: &str) -> (result: Result<Claims, TokenError>)
    ensures
        result matches Ok(claims) ==> payload_of(token@, secret@) == Some(
            (claims.sub@, claims.role@, claims.exp),
        ),
        (result matches Err(TokenError::Invalid)) <==> payload_of(token@, secret@) is None,
{
    let now = unix_now();
    verify_at(token, secret, now)
}

/// The login flow once the directory has answered the email lookup: an
/// unknown email is turned away as `Unauthorized`; a known user is handed
/// a token asserting its email as subject and its role.
pub fn login(found: Option<User>, secret: &str) -> (result: Result<TokenResponse, AppError>)
    ensures
        match found {
            None => result matches Err(e) && e is Unauthorized,
            Some(user) => {
                &&& result matches Ok(resp) ==> spec_fresh_token(
                    resp.token@,
                    user@.email,
                    spec_role_str(user@.role),
                    secret@,
                )
                &&& result matches Err(e) ==> e is InternalServerError
            },
        },
{
    match found {
        None => Err(AppError::Unauthorized),
        Some(user) => generate_jwt(user.email.as_str(), user.role.as_str(), secret),
    }
}

/// The greeting the token-protected identity route answers with.
pub fn greeting(sub: &str) -> (msg: String)
    ensures
        msg@ == "Hello "@ + sub@ + "! Your token is valid :3"@,
{
    let mut msg = String::from_str("Hello ");
    msg.append(sub);
    msg.append("! Your token is valid :3");
    msg
}

/// Round trip: a token bound to claims `(sub, role, exp)` under a secret
/// — as `mint` ensures of every token it returns, with `exp` exactly
/// `TOKEN_TTL_SECS` past the mint time — verifies under the same secret
/// at every instant before `exp` to exactly those claims.
pub proof fn lemma_mint_verify_round_trip(
    sub: Seq<char>,
    role: Seq<char>,
    exp: u64,
    secret: Seq<char>,
    token: Seq<char>,
    now: u64,
)
    ensures
        spec_token_binds(token, sub, role, exp, secret) && now < exp ==> spec_verify(
            payload_of(token, secret),
            now,
        ) == Ok::<(Seq<char>, Seq<char>, u64), TokenError>((sub, role, exp)),
{
}

/// Key binding: a token minted under one secret never verifies under a
/// secret that derives a different MAC key — the outcome there is
/// `Invalid` at every instant. (Secrets deriving the same key, such as
/// one being the other with trailing NULs, are one key to the signature.)
pub proof fn lemma_verify_wrong_secret(
    sub: Seq<char>,
    role: Seq<char>,
    exp: u64,
    secret: Seq<char>,
    other: Seq<char>,
    token: Seq<char>,
    now: u64,
)
    ensures
        spec_token_binds(token, sub, role, exp, secret) && hmac_key_of(other) != hmac_key_of(
            secret,
        ) ==> spec_verify(
            payload_of(token, other),
            now,
        ) == Err::<(Seq<char>, Seq<char>, u64), TokenError>(TokenError::Invalid),
{
}

/// Staleness: evaluated at any instant at or past the token's expiry,
/// verification answers `Expired`, never the claims.
pub proof fn lemma_verify_expired(
    sub: Seq<char>,
    role: Seq<char>,
    exp: u64,
    secret: Seq<char>,
    token: Seq<char>,
    now: u64,
)
    ensures
        spec_token_binds(token, sub, role, exp, secret) && exp <= now ==> spec_verify(
            payload_of(token, secret),
            now,
        ) == Err::<(Seq<char>, Seq<char>, u64), TokenError>(TokenError::Expired),
{
}

} // verus!
