use wallet_auth::models::{DateTimeFields, LogRecord, NewLogRecord, User};
use wallet_auth::proxy::{
    client_frame_step, upstream_frame_step, ClientFrame, ClientSend, UpstreamFrame, UpstreamSend,
};
use wallet_auth::errors::{AuthError, CacheError};
use wallet_auth::replies::{
    authentication_reply, log_reply, login_cookies, logout_reply, nonce_reply, protected_reply,
    registration_reply, renewal_cookies, user_reply, username_change_reply, ReplyBody,
    SameSitePolicy, StoreOutcome,
};
use wallet_auth::users::{finish_user_lookup, format_datetime, serialize_uzer};

fn dt(year: i32, month: u32, day: u32, hour: u32, minute: u32, second: u32) -> DateTimeFields {
    DateTimeFields { year, month, day, hour, minute, second }
}

fn user() -> User {
    User {
        public_key: "pk".to_string(),
        username: Some("alice".to_string()),
        rewards: Some(vec!["r1".to_string()]),
        created_at: dt(2024, 3, 9, 7, 5, 1),
        last_seen: dt(2025, 12, 31, 23, 59, 59),
        banned: false,
        ban_reason: None,
    }
}

#[test]
fn datetime_formats_like_chrono() {
    assert_eq!(format_datetime(&dt(2024, 3, 9, 7, 5, 1)), "2024-03-09 07:05:01");
    assert_eq!(format_datetime(&dt(5, 1, 1, 0, 0, 0)), "0005-01-01 00:00:00");
    assert_eq!(format_datetime(&dt(-1, 1, 1, 0, 0, 0)), "-0001-01-01 00:00:00");
    assert_eq!(format_datetime(&dt(12345, 6, 7, 8, 9, 60)), "+12345-06-07 08:09:60");
    let chrono_text = chrono::NaiveDate::from_ymd_opt(1999, 11, 2)
        .unwrap()
        .and_hms_opt(13, 4, 5)
        .unwrap()
        .format("%Y-%m-%d %H:%M:%S")
        .to_string();
    assert_eq!(format_datetime(&dt(1999, 11, 2, 13, 4, 5)), chrono_text);
}

#[test]
fn serialized_user_keeps_fields() {
    let r = serialize_uzer(user());
    assert_eq!(r.public_key, "pk");
    assert_eq!(r.username.as_deref(), Some("alice"));
    assert_eq!(r.rewards, Some(vec!["r1".to_string()]));
    assert_eq!(r.created_at, "2024-03-09 07:05:01");
    assert_eq!(r.last_seen, "2025-12-31 23:59:59");
    assert!(!r.banned);
    assert_eq!(r.ban_reason, None);
}

#[test]
fn lookup_outcomes() {
    assert_eq!(finish_user_lookup(Some(1), Ok::<bool, &str>(true), "missing"), Ok(1));
    assert_eq!(finish_user_lookup(Some(1), Err("update failed"), "missing"), Err("update failed"));
    assert_eq!(finish_user_lookup(None::<i32>, Err("update failed"), "missing"), Err("missing"));
    assert_eq!(finish_user_lookup(None::<i32>, Ok(true), "missing"), Err("missing"));
}

#[test]
fn log_record_keeps_fields_when_stored() {
    let record: NewLogRecord = LogRecord {
        id: None,
        user_public_key: "pk".to_string(),
        created_at: (),
        source: "wallet".to_string(),
        error_code: Some("E1".to_string()),
        message: "boom".to_string(),
        criticality: true,
        context: Some(serde_json::Value::from(3)),
    };
    let when = chrono::NaiveDate::from_ymd_opt(2024, 1, 2).unwrap().and_hms_opt(3, 4, 5).unwrap();
    let stored = record.with_id(42, when);
    assert_eq!(stored.id, 42);
    assert_eq!(stored.created_at, when);
    assert_eq!(stored.user_public_key, "pk");
    assert_eq!(stored.source, "wallet");
    assert_eq!(stored.error_code.as_deref(), Some("E1"));
    assert_eq!(stored.message, "boom");
    assert!(stored.criticality);
    assert_eq!(stored.context, Some(serde_json::Value::from(3)));
}

fn text_of(body: &ReplyBody) -> String {
    match body {
        ReplyBody::JsonText(t) => t.clone(),
        ReplyBody::Plain(t) => t.clone(),
        ReplyBody::JsonField(k, v) => format!("{}={}", k, v),
        ReplyBody::JsonUser(u) => u.public_key.clone(),
    }
}

#[test]
fn endpoint_replies() {
    let r = registration_reply("pk", &Ok(()));
    assert_eq!((r.status, text_of(&r.body)), (200, "User pk registered successfully".to_string()));
    let r = registration_reply("pk", &Err("dup".to_string()));
    assert_eq!((r.status, text_of(&r.body)), (500, "Failed to register user, Error: dup".to_string()));
    let r = username_change_reply("pk", &StoreOutcome::Done(true));
    assert_eq!((r.status, text_of(&r.body)), (200, "Name of user pk is updated".to_string()));
    let r = username_change_reply("pk", &StoreOutcome::Missing);
    assert_eq!((r.status, text_of(&r.body)), (404, "error=User pk not found".to_string()));
    let r = username_change_reply("pk", &StoreOutcome::Failed("x".to_string()));
    assert_eq!((r.status, text_of(&r.body)), (500, "error=Error in server or database - x".to_string()));
    let r = log_reply("pk", true);
    assert_eq!((r.status, text_of(&r.body)), (200, "log from user pk added succeful".to_string()));
    let r = log_reply("pk", false);
    assert_eq!((r.status, text_of(&r.body)), (500, "Log from pk didnt added".to_string()));
    let r = user_reply(StoreOutcome::Done(user()));
    assert_eq!((r.status, text_of(&r.body)), (200, "pk".to_string()));
    let r = user_reply(StoreOutcome::Missing);
    assert_eq!((r.status, text_of(&r.body)), (404, "error=User not found".to_string()));
    let r = user_reply(StoreOutcome::Failed("db".to_string()));
    assert_eq!((r.status, text_of(&r.body)), (500, "error=Database error: db".to_string()));
    let r = protected_reply();
    assert_eq!((r.status, text_of(&r.body)), (200, "status=protected".to_string()));
    let r = nonce_reply("abc", &Ok(()));
    assert_eq!((r.status, text_of(&r.body)), (200, "nonce=abc".to_string()));
    let r = nonce_reply("abc", &Err(CacheError::WriteError("w".to_string())));
    assert_eq!(
        (r.status, text_of(&r.body)),
        (500, "error=Failed to store nonce: Failed to store nonce: w".to_string())
    );
}

#[test]
fn session_cookies() {
    let (a, r) = login_cookies("A", "R");
    assert_eq!((a.name.as_str(), a.value.as_str(), a.max_age_seconds), ("access_token", "A", 3600));
    assert_eq!((r.name.as_str(), r.value.as_str(), r.max_age_seconds), ("refresh_token", "R", 604800));
    assert!(a.http_only && a.secure && a.same_site == SameSitePolicy::Unrestricted && a.path == "/");
    let (a, r) = renewal_cookies("A", "R");
    assert!(!a.secure && !r.secure && a.same_site == SameSitePolicy::Lax && r.max_age_seconds == 604800);
    let (reply, (a, r)) = logout_reply();
    assert_eq!((reply.status, text_of(&reply.body)), (200, "status=logged out".to_string()));
    assert_eq!((a.value.as_str(), r.value.as_str(), a.max_age_seconds, r.max_age_seconds), ("", "", 0, 0));
}

#[test]
fn authentication_replies() {
    let (reply, cookies) = authentication_reply(&Ok(("A".to_string(), "R".to_string())));
    assert_eq!((reply.status, text_of(&reply.body)), (200, "status=ok".to_string()));
    let (a, r) = cookies.unwrap();
    assert_eq!((a.value.as_str(), r.value.as_str()), ("A", "R"));
    let (reply, cookies) = authentication_reply(&Err(AuthError::InvalidSignature));
    assert_eq!((reply.status, text_of(&reply.body)), (401, "Error: Invalid signature".to_string()));
    assert!(cookies.is_none());
}

#[test]
fn client_frames() {
    let s = client_frame_step(ClientFrame::Text("héllo".as_bytes().to_vec()));
    assert!(matches!(s.send, Some(UpstreamSend::Text(ref t)) if t == "héllo"));
    assert!(s.stop_if_send_fails && !s.stop);
    let s = client_frame_step(ClientFrame::Text(vec![0xff, 0xfe]));
    assert!(s.send.is_none() && !s.stop);
    let s = client_frame_step(ClientFrame::Binary(vec![1, 2]));
    assert!(matches!(s.send, Some(UpstreamSend::Binary(ref b)) if b == &vec![1, 2]));
    let s = client_frame_step(ClientFrame::Ping(vec![9]));
    assert!(matches!(s.send, Some(UpstreamSend::Ping(_))) && !s.stop_if_send_fails);
    let s = client_frame_step(ClientFrame::Close);
    assert!(matches!(s.send, Some(UpstreamSend::Close)) && s.stop);
    let s = client_frame_step(ClientFrame::Failed);
    assert!(matches!(s.send, Some(UpstreamSend::Close)) && s.stop);
}

#[test]
fn upstream_frames() {
    let s = upstream_frame_step(UpstreamFrame::Text("x".to_string()));
    assert!(matches!(s.send, Some(ClientSend::Text(ref t)) if t == "x") && s.stop_if_send_fails);
    let s = upstream_frame_step(UpstreamFrame::Ping(vec![5]));
    assert!(matches!(s.send, Some(ClientSend::Pong(ref p)) if p == &vec![5]));
    let s = upstream_frame_step(UpstreamFrame::Pong(vec![6]));
    assert!(matches!(s.send, Some(ClientSend::Pong(ref p)) if p == &vec![6]));
    let s = upstream_frame_step(UpstreamFrame::Other);
    assert!(s.send.is_none() && !s.stop);
    let s = upstream_frame_step(UpstreamFrame::Close);
    assert!(matches!(s.send, Some(ClientSend::Close)) && s.stop);
    let s = upstream_frame_step(UpstreamFrame::Failed);
    assert!(matches!(s.send, Some(ClientSend::Close)) && s.stop);
}

#[test]
fn authentication_reply_cookies_and_messages() {
    let (_, cookies) = authentication_reply(&Ok(("A".to_string(), "R".to_string())));
    let (a, r) = cookies.unwrap();
    assert_eq!((a.name.as_str(), r.name.as_str()), ("access_token", "refresh_token"));
    assert!(a.http_only && r.http_only && a.secure && r.secure);
    assert!(a.same_site == SameSitePolicy::Unrestricted && r.same_site == SameSitePolicy::Unrestricted);
    assert_eq!((a.path.as_str(), r.path.as_str()), ("/", "/"));
    assert_eq!((a.max_age_seconds, r.max_age_seconds), (3600, 604800));
    let (reply, _) = authentication_reply(&Err(AuthError::InvalidPublicKeyLength));
    assert_eq!(text_of(&reply.body), "Error: Invalid public key length");
    let (reply, _) = authentication_reply(&Err(AuthError::NonceMismatch));
    assert_eq!(text_of(&reply.body), "Error: Nonce not found or does not match");
}

#[test]
fn logout_cookie_attributes() {
    let (_, (a, r)) = logout_reply();
    assert!(a.http_only && r.http_only && a.secure && r.secure);
    assert!(a.same_site == SameSitePolicy::Unrestricted && r.same_site == SameSitePolicy::Unrestricted);
    assert_eq!((a.path.as_str(), r.path.as_str()), ("/", "/"));
    assert_eq!((a.name.as_str(), r.name.as_str()), ("access_token", "refresh_token"));
}
