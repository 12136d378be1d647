//! The access guard in front of protected routes: it admits a request with a
//! valid access token, renews the session of a request with a valid refresh
//! token, and refuses the rest.
use vstd::prelude::*;

use std::rc::Rc;

use crate::clock::ClockReading;
use crate::text::{strip_bearer, strip_bearer_prefix, trim_whitespace, trim_ws};
use crate::tokens::{
    is_session_for,
    issued_at,
    opt_text,
    never_expires,
    refresh_tokens,
    token_claims,
    token_expiry,
    within_leeway,
    token_subject,
    verify_token,
};

verus! {

/// Builds guards for the protected routes.
pub struct JwtMiddlewareFactory {
    pub jwt_secret: String,
}

/// The guard around one service.
pub struct JwtMiddleware<S> {
    pub service: Rc<S>,
    pub jwt_secret: String,
}

/// What the guard does with a request.
#[derive(Debug)]
pub enum AccessDecision {
    /// Pass the request on.
    Allow,
    /// Pass the request on and set these new access and refresh tokens.
    AllowWithNewTokens(String, String),
    /// Refuse the request as unauthorized.
    Deny,
}

impl JwtMiddlewareFactory {
    /// The guard for `service`, checking tokens with this factory's secret.
    pub fn new_transform<S>(&self, service: S) -> (guard: JwtMiddleware<S>)
        ensures
            *guard.service == service,
            guard.jwt_secret@ == self.jwt_secret@,
    {
        JwtMiddleware { service: Rc::new(service), jwt_secret: self.jwt_secret.clone() }
    }
}

/// The access token a request presents: the trimmed rest of an
/// `Authorization: Bearer ...` header, or else the `access_token` cookie.
pub open spec fn presented_access_token(
    authorization: Option<Seq<char>>,
    access_cookie: Option<Seq<char>>,
) -> Option<Seq<char>> {
    match authorization {
        Some(h) => match strip_bearer(h) {
            Some(rest) => Some(trim_ws(rest)),
            None => access_cookie,
        },
        None => access_cookie,
    }
}

/// Picks the access token of a request. `authorization` is the
/// `Authorization` header when present and readable as text.
pub fn select_access_token(authorization: Option<&str>, access_cookie: Option<String>) -> (token:
    Option<String>)
    ensures
        opt_text(token) == presented_access_token(
            opt_str_view(authorization),
            opt_text(access_cookie),
        ),
{
    if let Some(h) = authorization {
        if let Some(rest) = strip_bearer_prefix(h) {
            return Some(trim_whitespace(rest));
        }
    }
    access_cookie
}

/// The guard's decision once the access token has been judged and, when it
/// was not valid, a renewal has been tried.
pub fn access_decision(access_valid: bool, renewed: Option<(String, String)>) -> (d: AccessDecision)
    ensures
        access_valid ==> d is Allow,
        !access_valid ==> match renewed {
            Some((a, r)) => d == AccessDecision::AllowWithNewTokens(a, r),
            None => d is Deny,
        },
{
    if access_valid {
        AccessDecision::Allow
    } else {
        match renewed {
            Some((access, refresh)) => AccessDecision::AllowWithNewTokens(access, refresh),
            None => AccessDecision::Deny,
        }
    }
}

/// The text view of an optional string slice.
pub open spec fn opt_str_view(s: Option<&str>) -> Option<Seq<char>> {
    match s {
        Some(t) => Some(t@),
        None => None,
    }
}

/// A token that carries valid claims under `secret` (the clock aside).
pub open spec fn well_signed(token: Option<Seq<char>>, secret: Seq<char>) -> bool {
    token matches Some(t) && token_claims(t, secret) is Some
}

/// The clock readings the guard judged tokens at: the access token's, when
/// one was presented with valid claims, and the refresh token's, when one was
/// tried with valid claims.
pub struct GuardReadings {
    pub access: Option<ClockReading>,
    pub refresh: Option<ClockReading>,
}

/// The presented access token is accepted at the reading taken for it: it
/// carries valid claims and has not expired beyond the decoder's leeway.
pub open spec fn access_accepted(
    token: Option<Seq<char>>,
    secret: Seq<char>,
    reading: Option<ClockReading>,
) -> bool {
    &&& token matches Some(t)
    &&& reading matches Some(now)
    &&& within_leeway(token_expiry(t, secret) as int, now.seconds() as int)
}

/// The refresh token is accepted at the reading taken for it: it carries
/// valid claims, has not expired beyond the decoder's leeway, and has not
/// expired at that reading.
pub open spec fn refresh_accepted(
    token: Option<Seq<char>>,
    secret: Seq<char>,
    reading: Option<ClockReading>,
) -> bool {
    &&& token matches Some(t)
    &&& reading matches Some(now)
    &&& within_leeway(token_expiry(t, secret) as int, now.seconds() as int)
    &&& !(token_expiry(t, secret) < now.seconds() as usize)
}

impl<S> JwtMiddleware<S> {
    /// Decides on a request from its `Authorization` header (when readable as
    /// text) and its `access_token` and `refresh_token` cookies: an access
    /// token accepted at a reading of the clock lets it through; else a
    /// refresh token accepted at a reading of the clock lets it through with
    /// a session renewed for the same subject; else it is refused. Also gives
    /// the readings the tokens were judged at.
    pub fn authorize(
        &self,
        authorization: Option<&str>,
        access_cookie: Option<String>,
        refresh_cookie: Option<String>,
    ) -> (res: (AccessDecision, GuardReadings))
        ensures
            ({
                let presented = presented_access_token(
                    opt_str_view(authorization),
                    opt_text(access_cookie),
                );
                &&& res.1.access is Some <==> well_signed(presented, self.jwt_secret@)
                &&& access_accepted(presented, self.jwt_secret@, res.1.access) ==> (res.0 is Allow
                    && res.1.refresh is None)
                &&& !access_accepted(presented, self.jwt_secret@, res.1.access) ==> {
                    &&& res.1.refresh is Some <==> well_signed(
                        opt_text(refresh_cookie),
                        self.jwt_secret@,
                    )
                    &&& refresh_accepted(opt_text(refresh_cookie), self.jwt_secret@, res.1.refresh)
                        ==> res.0 is AllowWithNewTokens
                    &&& !refresh_accepted(opt_text(refresh_cookie), self.jwt_secret@, res.1.refresh)
                        ==> res.0 is Deny
                }
            }),
            res.0 matches AccessDecision::AllowWithNewTokens(a, r) ==> (res.1.refresh matches Some(
                now,
            ) && issued_at(
                (a@, r@),
                token_subject(refresh_cookie->0@, self.jwt_secret@)->0,
                self.jwt_secret@,
                now.seconds(),
            )),
            res.0 matches AccessDecision::AllowWithNewTokens(a, r) ==> {
                &&& refresh_cookie is Some
                &&& token_subject(refresh_cookie->0@, self.jwt_secret@) is Some
                &&& is_session_for(
                    (a@, r@),
                    token_subject(refresh_cookie->0@, self.jwt_secret@)->0,
                    self.jwt_secret@,
                )
                &&& token_subject(a@, self.jwt_secret@) == token_subject(
                    refresh_cookie->0@,
                    self.jwt_secret@,
                )
                &&& token_subject(r@, self.jwt_secret@) == token_subject(
                    refresh_cookie->0@,
                    self.jwt_secret@,
                )
            },
            presented_access_token(opt_str_view(authorization), opt_text(access_cookie)) matches Some(
                t,
            ) && never_expires(t, self.jwt_secret@) ==> res.0 is Allow,
            refresh_cookie matches Some(r) && never_expires(r@, self.jwt_secret@) && !well_signed(
                presented_access_token(opt_str_view(authorization), opt_text(access_cookie)),
                self.jwt_secret@,
            ) ==> res.0 is AllowWithNewTokens,
    {
        let access_token = select_access_token(authorization, access_cookie);
        let (access_valid, access_reading) = match &access_token {
            Some(token) => verify_token(token.as_str(), self.jwt_secret.as_str()),
            None => (false, None),
        };
        let (renewed, refresh_reading) = if access_valid {
            (None, None)
        } else {
            match &refresh_cookie {
                Some(refresh) => refresh_tokens(refresh.as_str(), self.jwt_secret.as_str()),
                None => (None, None),
            }
        };
        (
            access_decision(access_valid, renewed),
            GuardReadings { access: access_reading, refresh: refresh_reading },
        )
    }
}

} // verus!
