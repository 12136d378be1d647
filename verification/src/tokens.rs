//! Session tokens: HS256 JSON Web Tokens whose claims are the wallet's public
//! key and an expiry. Access tokens live 15 minutes, refresh tokens 7 days.
use vstd::prelude::*;

use crate::clock::{read_clock, ClockReading};
use crate::models::Claims;

verus! {

#[verifier::external_type_specification]
#[verifier::external_body]
pub struct ExJwtError(jsonwebtoken::errors::Error);

/// Lowest Unix time, in seconds, of a `chrono` UTC date-time.
pub const CLOCK_MIN: i64 = -8334601315200;

/// Highest Unix time, in seconds, of a `chrono` UTC date-time.
pub const CLOCK_MAX: i64 = 8210266876799;

/// Seconds an access token is valid: 15 minutes.
pub const ACCESS_TOKEN_LIFETIME: i64 = 900;

/// Seconds a refresh token is valid: 7 days.
pub const REFRESH_TOKEN_LIFETIME: i64 = 604800;

/// The token `jsonwebtoken::encode` produces with the default header (HS256)
/// for the claims `{"sub": sub, "exp": exp}`, signed with `secret`.
pub uninterp spec fn jwt_hs256_token(sub: Seq<char>, exp: usize, secret: Seq<char>) -> Seq<char>;

/// What `jsonwebtoken::decode` with `Validation::default()` and the HS256 key
/// `secret` gives for `token` when the check of the expiry against the clock
/// is turned off: `None` when decoding fails (malformed token, algorithm other
/// than HS256, bad signature, payload that is not JSON, missing or
/// non-numeric `exp` claim, audience claim present); otherwise the payload's
/// `sub` claim when it is a string and its `exp` claim when it is an unsigned
/// integer.
pub uninterp spec fn jwt_hs256_claims(token: Seq<char>, secret: Seq<char>) -> Option<
    (Option<Seq<char>>, Option<u64>),
>;

/// Trusted: `jsonwebtoken::encode(&Header::default(), claims, &EncodingKey::from_secret(secret))`
/// with the claims `{"sub": sub, "exp": exp}` in this order. Stated: the call
/// succeeds (an HMAC key takes any secret, and the claims always serialize);
/// the token is named `jwt_hs256_token(sub, exp, secret)`; decoding it with the
/// same secret reads back `sub` and `exp`.
#[verifier::external_body]
fn jwt_encode_hs256(sub: &str, exp: usize, secret: &str) -> (res: Result<
    String,
    jsonwebtoken::errors::Error,
>)
    ensures
        res is Ok,
        res matches Ok(token) ==> token@ == jwt_hs256_token(sub@, exp, secret@),
        res matches Ok(token) ==> jwt_hs256_claims(token@, secret@) == Some(
            (Some(sub@), Some(exp as u64)),
        ),
{
    let mut claims = serde_json::Map::new();
    claims.insert(String::from("sub"), serde_json::Value::from(sub));
    claims.insert(String::from("exp"), serde_json::Value::from(exp));
    let key = jsonwebtoken::EncodingKey::from_secret(secret.as_bytes());
    jsonwebtoken::encode(&jsonwebtoken::Header::default(), &claims, &key)
}

/// The text view of an optional string.
pub open spec fn opt_text(s: Option<String>) -> Option<Seq<char>> {
    match s {
        Some(t) => Some(t@),
        None => None,
    }
}

/// Trusted: `jsonwebtoken::decode` with `DecodingKey::from_secret(secret)` and
/// `Validation::default()` with `validate_exp` turned off, returning the `sub`
/// claim when it is a string and the `exp` claim when it is an unsigned
/// integer. Turning the expiry check off leaves every other check in place
/// (the `exp` claim stays required) and keeps the crate from reading the
/// clock, so the outcome is a function of the token and the secret: it is
/// what `jwt_hs256_claims` names.
#[verifier::external_body]
fn jwt_decode_hs256(token: &str, secret: &str) -> (res: Result<
    (Option<String>, Option<u64>),
    jsonwebtoken::errors::Error,
>)
    ensures
        match res {
            Ok(fields) => jwt_hs256_claims(token@, secret@) == Some((opt_text(fields.0), fields.1)),
            Err(_) => jwt_hs256_claims(token@, secret@) is None,
        },
{
    let key = jsonwebtoken::DecodingKey::from_secret(secret.as_bytes());
    let mut validation = jsonwebtoken::Validation::default();
    validation.validate_exp = false;
    let data = jsonwebtoken::decode::<serde_json::Value>(token, &key, &validation)?;
    Ok((data.claims["sub"].as_str().map(|s| s.to_string()), data.claims["exp"].as_u64()))
}

/// The claims a token carries when it reads as `Claims`: a string subject and
/// an expiry that fits a `usize`.
pub open spec fn claims_of(fields: Option<(Option<Seq<char>>, Option<u64>)>) -> Option<
    (Seq<char>, usize),
> {
    match fields {
        Some((Some(sub), Some(exp))) => if exp <= usize::MAX {
            Some((sub, exp as usize))
        } else {
            None
        },
        _ => None,
    }
}

/// The claims `token` carries under `secret`, apart from the expiry check.
pub open spec fn token_claims(token: Seq<char>, secret: Seq<char>) -> Option<(Seq<char>, usize)> {
    claims_of(jwt_hs256_claims(token, secret))
}

/// The expiry a token with valid claims under `secret` carries.
pub open spec fn token_expiry(token: Seq<char>, secret: Seq<char>) -> usize {
    match token_claims(token, secret) {
        Some((_, exp)) => exp,
        None => 0,
    }
}

/// A token with valid claims under `secret` whose expiry is the largest
/// timestamp, so that no reading of the clock makes it expired.
pub open spec fn never_expires(token: Seq<char>, secret: Seq<char>) -> bool {
    token_claims(token, secret) matches Some((_, exp)) && exp == u64::MAX
}

/// The subject of `token` under `secret`, when it carries valid claims.
pub open spec fn token_subject(token: Seq<char>, secret: Seq<char>) -> Option<Seq<char>> {
    match token_claims(token, secret) {
        Some((sub, _)) => Some(sub),
        None => None,
    }
}

/// Reads decoded claim fields as `Claims`: both present and the expiry within
/// `usize`.
pub fn claims_from_fields(sub: Option<String>, exp: Option<u64>) -> (claims: Option<Claims>)
    ensures
        match claims {
            Some(c) => claims_of(Some((opt_text(sub), exp))) == Some((c.sub@, c.exp)),
            None => claims_of(Some((opt_text(sub), exp))) is None,
        },
{
    match (sub, exp) {
        (Some(sub), Some(exp)) => {
            if exp <= usize::MAX as u64 {
                Some(Claims { sub, exp: exp as usize })
            } else {
                None
            }
        },
        _ => None,
    }
}

/// The expiry stored in a token issued at `now` for `lifetime` seconds: the
/// Unix time `now + lifetime`, as a `usize`.
pub open spec fn expiry(now: i64, lifetime: i64) -> usize {
    (now + lifetime) as usize
}

/// Computes `expiry(now, lifetime)`.
pub fn expiry_at(now: i64, lifetime: i64) -> (exp: usize)
    requires
        i64::MIN <= now + lifetime <= i64::MAX,
    ensures
        exp == expiry(now, lifetime),
{
    let t: i64 = now + lifetime;
    t as usize
}

/// Signs a token for `sub` expiring at `exp`.
pub fn issue_token(sub: &str, exp: usize, secret: &str) -> (token: String)
    ensures
        token@ == jwt_hs256_token(sub@, exp, secret@),
        token_claims(token@, secret@) == Some((sub@, exp)),
{
    match jwt_encode_hs256(sub, exp, secret) {
        Ok(token) => token,
        Err(_) => String::new(),
    }
}

/// The access and refresh tokens for `pubkey`, the access token issued at
/// `access_now` and the refresh token at `refresh_now`.
pub fn issue_token_pair(pubkey: &str, jwt_secret: &str, access_now: i64, refresh_now: i64) -> (res: (
    String,
    String,
))
    requires
        CLOCK_MIN <= access_now <= CLOCK_MAX,
        CLOCK_MIN <= refresh_now <= CLOCK_MAX,
    ensures
        res.0@ == jwt_hs256_token(pubkey@, expiry(access_now, ACCESS_TOKEN_LIFETIME), jwt_secret@),
        res.1@ == jwt_hs256_token(
            pubkey@,
            expiry(refresh_now, REFRESH_TOKEN_LIFETIME),
            jwt_secret@,
        ),
        token_claims(res.0@, jwt_secret@) == Some(
            (pubkey@, expiry(access_now, ACCESS_TOKEN_LIFETIME)),
        ),
        token_claims(res.1@, jwt_secret@) == Some(
            (pubkey@, expiry(refresh_now, REFRESH_TOKEN_LIFETIME)),
        ),
{
    let access = issue_token(pubkey, expiry_at(access_now, ACCESS_TOKEN_LIFETIME), jwt_secret);
    let refresh = issue_token(pubkey, expiry_at(refresh_now, REFRESH_TOKEN_LIFETIME), jwt_secret);
    (access, refresh)
}

/// A pair of session tokens for `pubkey` issued at two instants that a clock
/// reading can give (from the Unix epoch on).
pub open spec fn is_session_for(
    tokens: (Seq<char>, Seq<char>),
    pubkey: Seq<char>,
    secret: Seq<char>,
) -> bool {
    exists|access_now: i64, refresh_now: i64|
        0 <= access_now <= CLOCK_MAX && 0 <= refresh_now <= CLOCK_MAX
            && tokens.0 == jwt_hs256_token(pubkey, expiry(access_now, ACCESS_TOKEN_LIFETIME), secret)
            && tokens.1 == jwt_hs256_token(
            pubkey,
            expiry(refresh_now, REFRESH_TOKEN_LIFETIME),
            secret,
        )
}

/// The session tokens `tokens` for `pubkey` under `secret` were both issued at
/// the Unix time `at`: the access token carries `pubkey` and expires
/// `ACCESS_TOKEN_LIFETIME` seconds after `at`, the refresh token carries
/// `pubkey` and expires `REFRESH_TOKEN_LIFETIME` seconds after `at`.
pub open spec fn issued_at(
    tokens: (Seq<char>, Seq<char>),
    pubkey: Seq<char>,
    secret: Seq<char>,
    at: i64,
) -> bool {
    &&& tokens.0 == jwt_hs256_token(pubkey, expiry(at, ACCESS_TOKEN_LIFETIME), secret)
    &&& tokens.1 == jwt_hs256_token(pubkey, expiry(at, REFRESH_TOKEN_LIFETIME), secret)
    &&& token_claims(tokens.0, secret) == Some((pubkey, expiry(at, ACCESS_TOKEN_LIFETIME)))
    &&& token_claims(tokens.1, secret) == Some((pubkey, expiry(at, REFRESH_TOKEN_LIFETIME)))
}

/// Issues a session for `pubkey` at the clock reading `at`.
pub fn issue_session(pubkey: &str, jwt_secret: &str, at: &ClockReading) -> (res: (String, String))
    ensures
        issued_at((res.0@, res.1@), pubkey@, jwt_secret@, at.seconds()),
{
    let t = at.unix_seconds();
    issue_token_pair(pubkey, jwt_secret, t, t)
}

/// Issues an access token (15 minutes) and a refresh token (7 days) for
/// `pubkey`, both expiring relative to one reading of the clock taken for
/// them: the refresh token outlives the access token by exactly the
/// difference of the two lifetimes.
pub fn generate_tokens(pubkey: &str, jwt_secret: &str) -> (res: (String, String))
    ensures
        is_session_for((res.0@, res.1@), pubkey@, jwt_secret@),
        token_subject(res.0@, jwt_secret@) == Some(pubkey@),
        token_subject(res.1@, jwt_secret@) == Some(pubkey@),
        exists|at: i64| 0 <= at <= CLOCK_MAX && issued_at((res.0@, res.1@), pubkey@, jwt_secret@, at),
        CLOCK_MAX + REFRESH_TOKEN_LIFETIME <= usize::MAX ==> token_expiry(res.1@, jwt_secret@)
            == token_expiry(res.0@, jwt_secret@) + (REFRESH_TOKEN_LIFETIME - ACCESS_TOKEN_LIFETIME),
{
    let now = read_clock();
    let tokens = issue_session(pubkey, jwt_secret, &now);
    proof {
        law_issued_session_lifetimes((tokens.0@, tokens.1@), pubkey@, jwt_secret@, now.seconds());
    }
    tokens
}

/// A session issued at the Unix time `at` (from the epoch to the end of the
/// clock's range, where expiries fit a `usize`) has an access token expiring
/// exactly `ACCESS_TOKEN_LIFETIME` seconds after `at` and a refresh token
/// expiring exactly `REFRESH_TOKEN_LIFETIME` seconds after `at`, both for the
/// same subject; so the refresh token outlives the access token by the
/// difference of the lifetimes.
pub proof fn law_issued_session_lifetimes(
    tokens: (Seq<char>, Seq<char>),
    pubkey: Seq<char>,
    secret: Seq<char>,
    at: i64,
)
    requires
        issued_at(tokens, pubkey, secret, at),
        0 <= at <= CLOCK_MAX,
    ensures
        is_session_for(tokens, pubkey, secret),
        token_subject(tokens.0, secret) == Some(pubkey),
        token_subject(tokens.1, secret) == Some(pubkey),
        CLOCK_MAX + REFRESH_TOKEN_LIFETIME <= usize::MAX ==> {
            &&& token_expiry(tokens.0, secret) == at + ACCESS_TOKEN_LIFETIME
            &&& token_expiry(tokens.1, secret) == at + REFRESH_TOKEN_LIFETIME
            &&& token_expiry(tokens.1, secret) == token_expiry(tokens.0, secret) + (
            REFRESH_TOKEN_LIFETIME - ACCESS_TOKEN_LIFETIME)
        },
{
}

/// A session issued at the reading `at` is accepted by the decoder's expiry
/// rule at every reading from `at` to `at` plus the access lifetime and the
/// leeway: right after it is issued, the access token verifies.
pub proof fn law_issued_access_token_verifies(
    tokens: (Seq<char>, Seq<char>),
    pubkey: Seq<char>,
    secret: Seq<char>,
    at: i64,
    later: int,
)
    requires
        issued_at(tokens, pubkey, secret, at),
        0 <= at <= CLOCK_MAX,
        CLOCK_MAX + REFRESH_TOKEN_LIFETIME <= usize::MAX,
        at <= later <= at + ACCESS_TOKEN_LIFETIME + JWT_LEEWAY_SECONDS,
    ensures
        within_leeway(token_expiry(tokens.0, secret) as int, later),
        within_leeway(token_expiry(tokens.1, secret) as int, later),
{
}

/// Seconds of leeway the token decoder allows past a token's expiry.
pub const JWT_LEEWAY_SECONDS: i64 = 60;

/// The decoder's expiry rule: claims expiring at `exp` are rejected at `now`
/// when `exp` is before `now` less the leeway.
pub open spec fn within_leeway(exp: int, now: int) -> bool {
    exp >= now - JWT_LEEWAY_SECONDS
}

/// Applies the decoder's expiry rule to claims expiring at `exp`, at `now`.
pub fn passes_expiry_rule(exp: u64, now: i64) -> (ok: bool)
    requires
        0 <= now <= CLOCK_MAX,
    ensures
        ok == within_leeway(exp as int, now as int),
{
    if now < JWT_LEEWAY_SECONDS {
        true
    } else {
        let limit: i64 = now - JWT_LEEWAY_SECONDS;
        exp >= limit as u64
    }
}

/// Whether `token` is a valid session token under `secret`: it decodes, its
/// signature checks out, its claims read as `Claims`, and, at a reading of
/// the clock taken once the claims are in hand, it has not expired beyond the
/// decoder's leeway. Also gives that reading (`None` when the token was
/// refused before the clock was read, which is exactly when it carries no
/// valid claims).
pub fn verify_token(token: &str, secret: &str) -> (res: (bool, Option<ClockReading>))
    ensures
        res.1 is None <==> token_claims(token@, secret@) is None,
        res.1 is None ==> !res.0,
        res.1 matches Some(now) ==> res.0 == within_leeway(
            token_expiry(token@, secret@) as int,
            now.seconds() as int,
        ),
        never_expires(token@, secret@) ==> res.0,
{
    let (sub, exp) = match jwt_decode_hs256(token, secret) {
        Ok(fields) => fields,
        Err(_) => return (false, None),
    };
    match claims_from_fields(sub, exp) {
        Some(claims) => {
            let now = read_clock();
            let ok = passes_expiry_rule(claims.exp as u64, now.unix_seconds());
            (ok, Some(now))
        },
        None => (false, None),
    }
}

/// Whether claims expiring at `exp` are still valid at `now`: `exp` is not
/// before `now` read as a `usize`.
pub fn still_valid(exp: usize, now: i64) -> (valid: bool)
    ensures
        valid == (exp >= now as usize),
{
    let now_secs = now as usize;
    !(exp < now_secs)
}

/// The renewal of a session whose refresh token carried `claims`, judged at
/// the clock reading `now`: none without claims, when the claims expired
/// beyond the decoder's leeway, or when they expired before `now` (read as a
/// `usize`); otherwise the access and refresh tokens
/// for the claims' subject, issued at `access_now` and `refresh_now`.
pub fn renewal(
    claims: Option<Claims>,
    jwt_secret: &str,
    now: i64,
    access_now: i64,
    refresh_now: i64,
) -> (res: Option<(String, String)>)
    requires
        0 <= now <= CLOCK_MAX,
        0 <= access_now <= CLOCK_MAX,
        0 <= refresh_now <= CLOCK_MAX,
    ensures
        res is None <==> (claims is None || !within_leeway(claims->0.exp as int, now as int)
            || claims->0.exp < now as usize),
        res matches Some(tokens) ==> {
            &&& tokens.0@ == jwt_hs256_token(
                claims->0.sub@,
                expiry(access_now, ACCESS_TOKEN_LIFETIME),
                jwt_secret@,
            )
            &&& tokens.1@ == jwt_hs256_token(
                claims->0.sub@,
                expiry(refresh_now, REFRESH_TOKEN_LIFETIME),
                jwt_secret@,
            )
            &&& token_claims(tokens.0@, jwt_secret@) == Some(
                (claims->0.sub@, expiry(access_now, ACCESS_TOKEN_LIFETIME)),
            )
            &&& token_claims(tokens.1@, jwt_secret@) == Some(
                (claims->0.sub@, expiry(refresh_now, REFRESH_TOKEN_LIFETIME)),
            )
        },
{
    let claims = match claims {
        Some(claims) => claims,
        None => return None,
    };
    if !passes_expiry_rule(claims.exp as u64, now) {
        return None;
    }
    if !still_valid(claims.exp, now) {
        return None;
    }
    Some(issue_token_pair(claims.sub.as_str(), jwt_secret, access_now, refresh_now))
}

/// Replaces a refresh token by a fresh session for the same public key. The
/// token is decoded; a token without valid claims is refused before the clock
/// is read; otherwise the clock is read once, and the claims and that reading
/// go to `renewal`, which judges the expiry at it and issues the new tokens at
/// it. Also gives the reading
/// the expiry was judged at (`None` exactly when the token carries no valid
/// claims). A refresh token that never expires is always renewed.
pub fn refresh_tokens(refresh_token: &str, jwt_secret: &str) -> (res: (
    Option<(String, String)>,
    Option<ClockReading>,
))
    ensures
        res.1 is None <==> token_claims(refresh_token@, jwt_secret@) is None,
        res.1 is None ==> res.0 is None,
        res.1 matches Some(now) ==> (res.0 is None <==> (!within_leeway(
            token_expiry(refresh_token@, jwt_secret@) as int,
            now.seconds() as int,
        ) || token_expiry(refresh_token@, jwt_secret@) < now.seconds() as usize)),
        never_expires(refresh_token@, jwt_secret@) ==> res.0 is Some,
        res.0 matches Some(tokens) ==> res.1 matches Some(now) && issued_at(
            (tokens.0@, tokens.1@),
            token_subject(refresh_token@, jwt_secret@)->0,
            jwt_secret@,
            now.seconds(),
        ),
        res.0 matches Some(tokens) ==> {
            &&& token_subject(refresh_token@, jwt_secret@) is Some
            &&& is_session_for(
                (tokens.0@, tokens.1@),
                token_subject(refresh_token@, jwt_secret@)->0,
                jwt_secret@,
            )
            &&& token_subject(tokens.0@, jwt_secret@) == token_subject(refresh_token@, jwt_secret@)
            &&& token_subject(tokens.1@, jwt_secret@) == token_subject(refresh_token@, jwt_secret@)
        },
{
    let (sub, exp) = match jwt_decode_hs256(refresh_token, jwt_secret) {
        Ok(fields) => fields,
        Err(_) => return (None, None),
    };
    let claims = claims_from_fields(sub, exp);
    if claims.is_none() {
        return (None, None);
    }
    let now = read_clock();
    let t = now.unix_seconds();
    let renewed = renewal(claims, jwt_secret, t, t, t);
    (renewed, Some(now))
}

/// Issued at the same instant, a refresh token expires after the access token
/// (for instants from the Unix epoch on, where the expiry fits a `usize`).
pub proof fn law_refresh_outlives_access(now: i64)
    requires
        0 <= now,
        now + REFRESH_TOKEN_LIFETIME <= usize::MAX,
    ensures
        expiry(now, ACCESS_TOKEN_LIFETIME) < expiry(now, REFRESH_TOKEN_LIFETIME),
{
}

/// A token issued at the reading `now` for `lifetime` seconds (its expiry
/// being `expiry(now, lifetime)`) passes the decoder's expiry rule at every
/// later reading up to `now + lifetime` plus the leeway, and fails it after;
/// for renewal it counts as expired at every reading past `now + lifetime`.
pub proof fn law_token_lives_its_lifetime(now: i64, lifetime: i64, at: i64)
    requires
        0 <= now,
        0 <= lifetime,
        0 <= at,
        now + lifetime <= usize::MAX,
        at <= usize::MAX,
    ensures
        within_leeway(expiry(now, lifetime) as int, at as int) <==> at <= now + lifetime
            + JWT_LEEWAY_SECONDS,
        (expiry(now, lifetime) < at as usize) <==> at > now + lifetime,
{
}

} // verus!
