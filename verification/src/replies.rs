//! What the HTTP endpoints answer: status codes, bodies and session cookies.
use vstd::prelude::*;

use crate::errors::{auth_error_text, AuthError, CacheError};
use crate::models::{User, UserResponse};
use crate::users::{datetime_text, serialize_uzer};

verus! {

/// The `SameSite` attribute of a cookie.
#[derive(Debug, Clone, Copy, PartialEq, Eq, Structural)]
pub enum SameSitePolicy {
    Strict,
    Lax,
    Unrestricted,
}

/// A cookie to set on a reply.
#[derive(Debug)]
pub struct CookieSpec {
    pub name: String,
    pub value: String,
    pub http_only: bool,
    pub secure: bool,
    pub same_site: SameSitePolicy,
    pub max_age_seconds: i64,
    pub path: String,
}

/// Seconds the access-token cookie lives: one hour.
pub const ACCESS_COOKIE_MAX_AGE: i64 = 3600;

/// Seconds the refresh-token cookie lives: seven days.
pub const REFRESH_COOKIE_MAX_AGE: i64 = 604800;

/// The body of a reply.
#[derive(Debug)]
pub enum ReplyBody {
    /// A JSON string.
    JsonText(String),
    /// A JSON object with one field: its name and its string value.
    JsonField(String, String),
    /// A user as JSON.
    JsonUser(UserResponse),
    /// Plain text.
    Plain(String),
}

/// A reply: its status code and body.
#[derive(Debug)]
pub struct Reply {
    pub status: u16,
    pub body: ReplyBody,
}

/// What a store operation on a row came to.
#[derive(Debug)]
pub enum StoreOutcome<T> {
    /// It succeeded, with this result.
    Done(T),
    /// The row does not exist.
    Missing,
    /// It failed; holds the error's text.
    Failed(String),
}

/// The body is the JSON string `t`.
pub open spec fn is_json_text(body: ReplyBody, t: Seq<char>) -> bool {
    match body {
        ReplyBody::JsonText(x) => x@ == t,
        _ => false,
    }
}

/// The body is the JSON object `{k: v}`.
pub open spec fn is_json_field(body: ReplyBody, k: Seq<char>, v: Seq<char>) -> bool {
    match body {
        ReplyBody::JsonField(x, y) => x@ == k && y@ == v,
        _ => false,
    }
}

/// The text of a JSON object `{k: ...}` with one string field named `k`.
pub open spec fn json_field_value(body: ReplyBody, k: Seq<char>) -> Option<Seq<char>> {
    match body {
        ReplyBody::JsonField(x, y) => if x@ == k {
            Some(y@)
        } else {
            None
        },
        _ => None,
    }
}

/// The text of a plain-text body.
pub open spec fn plain_text(body: ReplyBody) -> Option<Seq<char>> {
    match body {
        ReplyBody::Plain(t) => Some(t@),
        _ => None,
    }
}

fn text(s: &str) -> (t: String)
    ensures
        t@ == s@,
{
    s.to_owned()
}

fn concat(a: &str, b: &str) -> (t: String)
    ensures
        t@ == a@ + b@,
{
    let mut t = a.to_owned();
    t.append(b);
    t
}

fn concat3(a: &str, b: &str, c: &str) -> (t: String)
    ensures
        t@ == a@ + b@ + c@,
{
    let mut t = a.to_owned();
    t.append(b);
    t.append(c);
    t
}

fn cookie(
    name: &str,
    value: &str,
    secure: bool,
    same_site: SameSitePolicy,
    max_age_seconds: i64,
) -> (c: CookieSpec)
    ensures
        c.name@ == name@,
        c.value@ == value@,
        c.http_only,
        c.secure == secure,
        c.same_site == same_site,
        c.max_age_seconds == max_age_seconds,
        c.path@ == "/"@,
{
    CookieSpec {
        name: text(name),
        value: text(value),
        http_only: true,
        secure,
        same_site,
        max_age_seconds,
        path: text("/"),
    }
}

/// The cookies of a fresh session carrying `access` and `refresh`:
/// `access_token` for an hour and `refresh_token` for seven days, HTTP-only,
/// secure, `SameSite=None`, path `/`.
pub open spec fn is_login_cookies(
    cookies: (CookieSpec, CookieSpec),
    access: Seq<char>,
    refresh: Seq<char>,
) -> bool {
    &&& cookies.0.name@ == "access_token"@
    &&& cookies.0.value@ == access
    &&& cookies.0.max_age_seconds == ACCESS_COOKIE_MAX_AGE
    &&& cookies.1.name@ == "refresh_token"@
    &&& cookies.1.value@ == refresh
    &&& cookies.1.max_age_seconds == REFRESH_COOKIE_MAX_AGE
    &&& cookies.0.http_only && cookies.1.http_only
    &&& cookies.0.secure && cookies.1.secure
    &&& cookies.0.same_site == SameSitePolicy::Unrestricted
    &&& cookies.1.same_site == SameSitePolicy::Unrestricted
    &&& cookies.0.path@ == "/"@ && cookies.1.path@ == "/"@
}

/// The cookies of a fresh session.
pub fn login_cookies(access: &str, refresh: &str) -> (cookies: (CookieSpec, CookieSpec))
    ensures
        is_login_cookies(cookies, access@, refresh@),
{
    (
        cookie("access_token", access, true, SameSitePolicy::Unrestricted, ACCESS_COOKIE_MAX_AGE),
        cookie("refresh_token", refresh, true, SameSitePolicy::Unrestricted, REFRESH_COOKIE_MAX_AGE),
    )
}

/// The cookies that end a session: both token cookies emptied and expiring at
/// once, with the attributes of the session cookies.
pub fn logout_cookies() -> (cookies: (CookieSpec, CookieSpec))
    ensures
        cookies.0.name@ == "access_token"@,
        cookies.1.name@ == "refresh_token"@,
        cookies.0.value@ == ""@ && cookies.1.value@ == ""@,
        cookies.0.max_age_seconds == 0 && cookies.1.max_age_seconds == 0,
        cookies.0.http_only && cookies.1.http_only,
        cookies.0.secure && cookies.1.secure,
        cookies.0.same_site == SameSitePolicy::Unrestricted,
        cookies.1.same_site == SameSitePolicy::Unrestricted,
        cookies.0.path@ == "/"@ && cookies.1.path@ == "/"@,
{
    (
        cookie("access_token", "", true, SameSitePolicy::Unrestricted, 0),
        cookie("refresh_token", "", true, SameSitePolicy::Unrestricted, 0),
    )
}

/// The cookies the access guard sets when it renews a session: `access_token`
/// for an hour and `refresh_token` for seven days, HTTP-only, not restricted
/// to secure connections, `SameSite=Lax`, path `/`.
pub fn renewal_cookies(access: &str, refresh: &str) -> (cookies: (CookieSpec, CookieSpec))
    ensures
        cookies.0.name@ == "access_token"@,
        cookies.0.value@ == access@,
        cookies.0.max_age_seconds == ACCESS_COOKIE_MAX_AGE,
        cookies.1.name@ == "refresh_token"@,
        cookies.1.value@ == refresh@,
        cookies.1.max_age_seconds == REFRESH_COOKIE_MAX_AGE,
        cookies.0.http_only && cookies.1.http_only,
        !cookies.0.secure && !cookies.1.secure,
        cookies.0.same_site == SameSitePolicy::Lax,
        cookies.1.same_site == SameSitePolicy::Lax,
        cookies.0.path@ == "/"@ && cookies.1.path@ == "/"@,
{
    (
        cookie("access_token", access, false, SameSitePolicy::Lax, ACCESS_COOKIE_MAX_AGE),
        cookie("refresh_token", refresh, false, SameSitePolicy::Lax, REFRESH_COOKIE_MAX_AGE),
    )
}

/// The reply to a nonce request for `nonce` whose storage came to `stored`:
/// `{"nonce": nonce}`, or a server error `{"error": "Failed to store nonce: "
/// + message}` carrying the storage failure's message.
pub open spec fn nonce_reply_matches(
    nonce: Seq<char>,
    stored: Result<(), CacheError>,
    reply: Reply,
) -> bool {
    match stored {
        Ok(()) => reply.status == 200 && is_json_field(reply.body, "nonce"@, nonce),
        Err(e) => reply.status == 500 && json_field_value(reply.body, "error"@) is Some && match e {
            CacheError::WriteError(s) => json_field_value(reply.body, "error"@)->0
                == "Failed to store nonce: "@ + ("Failed to store nonce: "@ + s@),
            CacheError::ConnectionError(_) => exists|t: Seq<char>|
                json_field_value(reply.body, "error"@)->0 == "Failed to store nonce: "@ + (
                "Redis connection failed: "@ + t),
        },
    }
}

/// The reply to a nonce request: the nonce, or a server error carrying the
/// storage failure.
pub fn nonce_reply(nonce: &str, stored: &Result<(), CacheError>) -> (reply: Reply)
    ensures
        nonce_reply_matches(nonce@, *stored, reply),
{
    match stored {
        Ok(()) => Reply { status: 200, body: ReplyBody::JsonField(text("nonce"), text(nonce)) },
        Err(e) => {
            let m = e.message();
            Reply {
                status: 500,
                body: ReplyBody::JsonField(
                    text("error"),
                    concat("Failed to store nonce: ", m.as_str()),
                ),
            }
        },
    }
}

/// The reply to an authentication that came to `outcome`: `{"status": "ok"}`
/// with the session cookies, or `401 Unauthorized` with the text `"Error: "`
/// and the error's message, and no cookie.
pub open spec fn authentication_reply_matches(
    outcome: Result<(String, String), AuthError>,
    res: (Reply, Option<(CookieSpec, CookieSpec)>),
) -> bool {
    match outcome {
        Ok((access, refresh)) => {
            &&& res.0.status == 200
            &&& is_json_field(res.0.body, "status"@, "ok"@)
            &&& res.1 matches Some(cookies) && is_login_cookies(cookies, access@, refresh@)
        },
        Err(e) => {
            &&& res.0.status == 401
            &&& plain_text(res.0.body) == Some("Error: "@ + auth_error_text(e))
            &&& res.1 is None
        },
    }
}

/// The reply to an authentication: `{"status": "ok"}` with the session
/// cookies, or `401 Unauthorized` with the reason as text.
pub fn authentication_reply(outcome: &Result<(String, String), AuthError>) -> (res: (
    Reply,
    Option<(CookieSpec, CookieSpec)>,
))
    ensures
        authentication_reply_matches(*outcome, res),
{
    match outcome {
        Ok((access, refresh)) => (
            Reply { status: 200, body: ReplyBody::JsonField(text("status"), text("ok")) },
            Some(login_cookies(access.as_str(), refresh.as_str())),
        ),
        Err(e) => {
            let m = e.message();
            let t = concat("Error: ", m.as_str());
            proof {
                reveal_strlit("Error: ");
                assert(t@.subrange(0, 7) =~= "Error: "@);
            }
            (Reply { status: 401, body: ReplyBody::Plain(t) }, None)
        },
    }
}

/// Cookies that empty both token cookies and expire them at once, with the
/// attributes of the session cookies: HTTP-only, secure, `SameSite=None`,
/// path `/`.
pub open spec fn ends_session(cookies: (CookieSpec, CookieSpec)) -> bool {
    &&& cookies.0.name@ == "access_token"@
    &&& cookies.1.name@ == "refresh_token"@
    &&& cookies.0.value@ == ""@
    &&& cookies.1.value@ == ""@
    &&& cookies.0.max_age_seconds == 0
    &&& cookies.1.max_age_seconds == 0
    &&& cookies.0.http_only && cookies.1.http_only
    &&& cookies.0.secure && cookies.1.secure
    &&& cookies.0.same_site == SameSitePolicy::Unrestricted
    &&& cookies.1.same_site == SameSitePolicy::Unrestricted
    &&& cookies.0.path@ == "/"@ && cookies.1.path@ == "/"@
}

/// The reply to a logout: `{"status": "logged out"}` with the cookies that end
/// the session.
pub fn logout_reply() -> (res: (Reply, (CookieSpec, CookieSpec)))
    ensures
        res.0.status == 200,
        is_json_field(res.0.body, "status"@, "logged out"@),
        ends_session(res.1),
{
    (
        Reply { status: 200, body: ReplyBody::JsonField(text("status"), text("logged out")) },
        logout_cookies(),
    )
}

/// The reply of the protected example route: `{"status": "protected"}`.
pub fn protected_reply() -> (reply: Reply)
    ensures
        reply.status == 200,
        is_json_field(reply.body, "status"@, "protected"@),
{
    Reply { status: 200, body: ReplyBody::JsonField(text("status"), text("protected")) }
}

/// The reply to a registration.
pub fn registration_reply(public_key: &str, outcome: &Result<(), String>) -> (reply: Reply)
    ensures
        match outcome {
            Ok(()) => reply.status == 200 && is_json_text(
                reply.body,
                "User "@ + public_key@ + " registered successfully"@,
            ),
            Err(e) => reply.status == 500 && is_json_text(
                reply.body,
                "Failed to register user, Error: "@ + e@,
            ),
        },
{
    match outcome {
        Ok(()) => Reply {
            status: 200,
            body: ReplyBody::JsonText(concat3("User ", public_key, " registered successfully")),
        },
        Err(e) => Reply {
            status: 500,
            body: ReplyBody::JsonText(concat("Failed to register user, Error: ", e.as_str())),
        },
    }
}

/// The reply to a user lookup: the user, `404` when there is none, `500` on a
/// store failure.
pub fn user_reply(outcome: StoreOutcome<User>) -> (reply: Reply)
    requires
        outcome matches StoreOutcome::Done(u) ==> u.created_at.wf() && u.last_seen.wf(),
    ensures
        match outcome {
            StoreOutcome::Done(u) => {
                &&& reply.status == 200
                &&& reply.body is JsonUser
                &&& reply.body->JsonUser_0.public_key == u.public_key
                &&& reply.body->JsonUser_0.username == u.username
                &&& reply.body->JsonUser_0.rewards == u.rewards
                &&& reply.body->JsonUser_0.created_at@ == datetime_text(u.created_at)
                &&& reply.body->JsonUser_0.last_seen@ == datetime_text(u.last_seen)
                &&& reply.body->JsonUser_0.banned == u.banned
                &&& reply.body->JsonUser_0.ban_reason == u.ban_reason
            },
            StoreOutcome::Missing => reply.status == 404 && is_json_field(
                reply.body,
                "error"@,
                "User not found"@,
            ),
            StoreOutcome::Failed(e) => reply.status == 500 && is_json_field(
                reply.body,
                "error"@,
                "Database error: "@ + e@,
            ),
        },
{
    match outcome {
        StoreOutcome::Done(user) => Reply {
            status: 200,
            body: ReplyBody::JsonUser(serialize_uzer(user)),
        },
        StoreOutcome::Missing => Reply {
            status: 404,
            body: ReplyBody::JsonField(text("error"), text("User not found")),
        },
        StoreOutcome::Failed(e) => Reply {
            status: 500,
            body: ReplyBody::JsonField(text("error"), concat("Database error: ", e.as_str())),
        },
    }
}

/// The reply to a change of user name.
pub fn username_change_reply(public_key: &str, outcome: &StoreOutcome<bool>) -> (reply: Reply)
    ensures
        match outcome {
            StoreOutcome::Done(_) => reply.status == 200 && is_json_text(
                reply.body,
                "Name of user "@ + public_key@ + " is updated"@,
            ),
            StoreOutcome::Missing => reply.status == 404 && is_json_field(
                reply.body,
                "error"@,
                "User "@ + public_key@ + " not found"@,
            ),
            StoreOutcome::Failed(e) => reply.status == 500 && is_json_field(
                reply.body,
                "error"@,
                "Error in server or database - "@ + e@,
            ),
        },
{
    match outcome {
        StoreOutcome::Done(_) => Reply {
            status: 200,
            body: ReplyBody::JsonText(concat3("Name of user ", public_key, " is updated")),
        },
        StoreOutcome::Missing => Reply {
            status: 404,
            body: ReplyBody::JsonField(text("error"), concat3("User ", public_key, " not found")),
        },
        StoreOutcome::Failed(e) => Reply {
            status: 500,
            body: ReplyBody::JsonField(
                text("error"),
                concat("Error in server or database - ", e.as_str()),
            ),
        },
    }
}

/// The reply to a log record submission.
pub fn log_reply(user_public_key: &str, stored: bool) -> (reply: Reply)
    ensures
        stored ==> reply.status == 200 && is_json_text(
            reply.body,
            "log from user "@ + user_public_key@ + " added succeful"@,
        ),
        !stored ==> reply.status == 500 && is_json_text(
            reply.body,
            "Log from "@ + user_public_key@ + " didnt added"@,
        ),
{
    if stored {
        Reply {
            status: 200,
            body: ReplyBody::JsonText(concat3("log from user ", user_public_key, " added succeful")),
        }
    } else {
        Reply {
            status: 500,
            body: ReplyBody::JsonText(concat3("Log from ", user_public_key, " didnt added")),
        }
    }
}

} // verus!
