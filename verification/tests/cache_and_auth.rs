use ed25519_dalek::Signer;
use wallet_auth::auth::{authenticate, authentication_verdict, authentification_hendler};
use wallet_auth::cache::{
    cache_url_accepted, check_nonce_in_cache, get_redis_connection, nonce_check_fields, nonce_check_outcome, nonce_entry_matches, nonce_fields,
    nonce_read, nonce_spend, nonce_write, put_nonce_into_cache, put_nonce_into_cache_checked,
    reverse_flag, NONCE_TTL_SECONDS,
};
use wallet_auth::crypto::encode_nonce;
use wallet_auth::endpoints::{authentication_endpoint, nonce_endpoint};
use wallet_auth::errors::{AuthError, CacheError};
use wallet_auth::models::{AuthPayload, Config, ForNonce};
use wallet_auth::replies::ReplyBody;

// A port on which nothing listens: connections are refused at once.
const DEAD_CACHE: &str = "redis://127.0.0.1:1/";

fn some(s: &str) -> Option<String> {
    Some(s.to_string())
}

#[test]
fn fresh_entry_fields() {
    let items = nonce_fields("pk");
    assert_eq!(
        items,
        vec![
            ("address".to_string(), "pk".to_string()),
            ("flag".to_string(), "false".to_string())
        ]
    );
    assert_eq!(nonce_check_fields(), vec!["address".to_string(), "flag".to_string()]);
    assert_eq!(NONCE_TTL_SECONDS, 60);
}

#[test]
fn entry_admits_owner_of_unspent_nonce_only() {
    assert!(nonce_entry_matches(&vec![some("pk"), some("false")], "pk"));
    assert!(!nonce_entry_matches(&vec![some("pk"), some("false")], "other"));
    assert!(!nonce_entry_matches(&vec![some("pk"), some("true")], "pk"));
    assert!(!nonce_entry_matches(&vec![None, some("false")], "pk"));
    assert!(!nonce_entry_matches(&vec![some("pk"), None], "pk"));
    assert!(!nonce_entry_matches(&vec![some("pk")], "pk"));
    assert!(!nonce_entry_matches(&vec![some("pk"), some("false"), some("x")], "pk"));
    assert!(!nonce_entry_matches(&vec![], "pk"));
}

#[test]
fn check_outcome_passes_errors_through() {
    assert_eq!(nonce_check_outcome(Ok(vec![some("pk"), some("false")]), "pk").unwrap(), true);
    assert_eq!(nonce_check_outcome(Ok(vec![None, None]), "pk").unwrap(), false);
    let err = redis::RedisError::from((redis::ErrorKind::IoError, "down"));
    assert!(nonce_check_outcome(Err(err), "pk").is_err());
}

#[test]
fn cache_urls() {
    assert!(cache_url_accepted("redis://127.0.0.1:6379/"));
    assert!(cache_url_accepted("redis://localhost"));
    assert!(!cache_url_accepted("http://localhost:6379"));
    assert!(!cache_url_accepted("not a url"));
}

#[test]
fn storing_with_unreachable_cache_is_a_connection_error() {
    match put_nonce_into_cache("n", "pk", DEAD_CACHE).0 {
        Err(CacheError::ConnectionError(_)) => {}
        other => panic!("unexpected {:?}", other),
    }
    assert!(put_nonce_into_cache_checked("n", "pk", "ftp://x").0.is_none());
    assert!(matches!(
        put_nonce_into_cache_checked("n", "pk", DEAD_CACHE).0,
        Some(Err(CacheError::ConnectionError(_)))
    ));
}

#[test]
fn cache_error_messages() {
    assert_eq!(
        CacheError::WriteError("READONLY".to_string()).message(),
        "Failed to store nonce: READONLY"
    );
    let err = redis::RedisError::from((redis::ErrorKind::IoError, "down"));
    assert!(CacheError::ConnectionError(err).message().starts_with("Redis connection failed: "));
}

fn config(url: &str) -> Config {
    Config { redis_url: url.to_string(), jwt_secret: "secret".to_string() }
}

fn valid_payload() -> AuthPayload {
    let key = ed25519_dalek::SigningKey::from_bytes(&[3u8; 32]);
    let signature = key.sign(b"nonce-value").to_bytes();
    AuthPayload {
        nonce: "nonce-value".to_string(),
        public_key: bs58::encode(key.verifying_key().to_bytes()).into_string(),
        signature: bs58::encode(signature).into_string(),
    }
}

#[test]
fn bad_credentials_are_refused_before_the_cache() {
    let payload = AuthPayload {
        nonce: "n".to_string(),
        public_key: "0".to_string(),
        signature: "1".to_string(),
    };
    // The cache URL is never used for such credentials.
    assert!(matches!(
        authentification_hendler(&payload, &config("nonsense")).0,
        Err(AuthError::PublicKeyEncoding(_))
    ));
    assert!(matches!(
        authenticate(&payload, &config("nonsense")).0,
        Some(Err(AuthError::PublicKeyEncoding(_)))
    ));
}

#[test]
fn unchecked_nonce_is_refused() {
    let payload = valid_payload();
    assert!(matches!(
        authentification_hendler(&payload, &config(DEAD_CACHE)).0,
        Err(AuthError::NonceMismatch)
    ));
    assert!(authenticate(&payload, &config("nonsense")).0.is_none());
}

#[test]
fn nonce_endpoint_outcomes() {
    let request = ForNonce { pubkey: "pk".to_string() };
    assert!(nonce_endpoint(&request, &config("nonsense")).0.is_none());
    let reply = nonce_endpoint(&request, &config(DEAD_CACHE)).0.unwrap();
    assert_eq!(reply.status, 500);
    match reply.body {
        ReplyBody::JsonField(k, v) => {
            assert_eq!(k, "error");
            assert!(v.starts_with("Failed to store nonce: Redis connection failed: "));
        }
        other => panic!("unexpected {:?}", other),
    }
}

#[test]
fn authentication_endpoint_outcomes() {
    let payload = valid_payload();
    let (reply, cookies) = authentication_endpoint(&payload, &config(DEAD_CACHE)).0.unwrap();
    assert_eq!(reply.status, 401);
    assert!(cookies.is_none());
    match reply.body {
        ReplyBody::Plain(t) => assert_eq!(t, "Error: Nonce not found or does not match"),
        other => panic!("unexpected {:?}", other),
    }
    assert!(authentication_endpoint(&payload, &config("nonsense")).0.is_none());
}

#[test]
fn nonce_commands_share_the_nonce_key() {
    let w = nonce_write("n1", "pk");
    let r = nonce_read("n1");
    let s = nonce_spend("n1");
    assert_eq!(w.key, encode_nonce("n1"));
    assert_eq!(r.key, w.key);
    assert_eq!(s.key, w.key);
    assert_eq!(w.ttl_seconds, 60);
    assert_eq!(w.fields, nonce_fields("pk"));
    assert_eq!(r.fields, nonce_check_fields());
    assert_eq!((s.field.as_str(), s.value.as_str()), ("flag", "true"));
    assert_ne!(nonce_write("n2", "pk").key, w.key);
}

#[test]
fn unreachable_cache_fails_every_operation() {
    assert!(get_redis_connection(DEAD_CACHE).is_err());
    assert!(check_nonce_in_cache("n", "pk", DEAD_CACHE).0.is_err());
    assert!(reverse_flag("n", DEAD_CACHE).0.is_err());
}

fn redis_down() -> redis::RedisError {
    redis::RedisError::from((redis::ErrorKind::IoError, "down"))
}

#[test]
fn verdict_needs_admitted_nonce_spend_and_valid_signature() {
    assert!(authentication_verdict(Ok(true), Some(Ok(true)), Some(Ok(()))).is_ok());
    assert!(matches!(
        authentication_verdict(Ok(true), Some(Ok(false)), Some(Ok(()))),
        Err(AuthError::InvalidSignature)
    ));
    assert!(matches!(
        authentication_verdict(Ok(true), Some(Ok(true)), Some(Err(redis_down()))),
        Err(AuthError::Cache(_))
    ));
    assert!(matches!(
        authentication_verdict(Ok(true), Some(Err(AuthError::InvalidSignatureLength)), None),
        Err(AuthError::InvalidSignatureLength)
    ));
    assert!(matches!(
        authentication_verdict(Ok(false), None, None),
        Err(AuthError::NonceMismatch)
    ));
    assert!(matches!(
        authentication_verdict(Err(redis_down()), None, None),
        Err(AuthError::NonceMismatch)
    ));
}

#[test]
fn short_credentials_give_their_messages() {
    let payload = AuthPayload {
        nonce: "n".to_string(),
        public_key: "1".to_string(),
        signature: "1".to_string(),
    };
    let (reply, cookies) = authentication_endpoint(&payload, &config("nonsense")).0.unwrap();
    assert_eq!(reply.status, 401);
    assert!(cookies.is_none());
    assert!(matches!(reply.body, ReplyBody::Plain(ref t) if t == "Error: Invalid public key length"));
    let payload = AuthPayload {
        nonce: "n".to_string(),
        public_key: "1".repeat(32),
        signature: "1".to_string(),
    };
    let (reply, _) = authentication_endpoint(&payload, &config("nonsense")).0.unwrap();
    assert!(matches!(reply.body, ReplyBody::Plain(ref t) if t == "Error: Invalid signature length"));
}

#[test]
fn failed_connections_hand_back_no_connection() {
    let (res, con) = check_nonce_in_cache("n", "pk", DEAD_CACHE);
    assert!(res.is_err() && con.is_none());
    let (res, con) = reverse_flag("n", DEAD_CACHE);
    assert!(res.is_err() && con.is_none());
    let (res, con) = put_nonce_into_cache("n", "pk", DEAD_CACHE);
    assert!(matches!(res, Err(CacheError::ConnectionError(_))) && con.is_none());
}

#[test]
fn bad_credentials_open_no_connection() {
    let payload = AuthPayload {
        nonce: "n".to_string(),
        public_key: "0OIl".to_string(),
        signature: "1".to_string(),
    };
    let (res, trail) = authentification_hendler(&payload, &config(DEAD_CACHE));
    assert!(trail.check.is_none() && trail.spend.is_none());
    match res {
        Err(e @ AuthError::PublicKeyEncoding(_)) => assert!(!e.message().is_empty()),
        other => panic!("unexpected {:?}", other),
    }
    let (res, trail) = authentification_hendler(&valid_payload(), &config(DEAD_CACHE));
    assert!(matches!(res, Err(AuthError::NonceMismatch)));
    assert!(trail.check.is_none() && trail.spend.is_none());
}
