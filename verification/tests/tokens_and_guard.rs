use wallet_auth::middleware::{access_decision, select_access_token, AccessDecision, JwtMiddlewareFactory};
use wallet_auth::tokens::{
    claims_from_fields, expiry_at, generate_tokens, issue_token, issue_token_pair, refresh_tokens, renewal,
    passes_expiry_rule, still_valid, verify_token, ACCESS_TOKEN_LIFETIME, REFRESH_TOKEN_LIFETIME,
};

fn now() -> i64 {
    std::time::SystemTime::now()
        .duration_since(std::time::UNIX_EPOCH)
        .unwrap()
        .as_secs() as i64
}

fn decode_claims(token: &str, secret: &str) -> serde_json::Value {
    let mut validation = jsonwebtoken::Validation::default();
    validation.validate_exp = false;
    jsonwebtoken::decode::<serde_json::Value>(
        token,
        &jsonwebtoken::DecodingKey::from_secret(secret.as_bytes()),
        &validation,
    )
    .unwrap()
    .claims
}

#[test]
fn expiry_adds_the_lifetime() {
    assert_eq!(expiry_at(1_700_000_000, ACCESS_TOKEN_LIFETIME), 1_700_000_900);
    assert_eq!(expiry_at(1_700_000_000, REFRESH_TOKEN_LIFETIME), 1_700_604_800);
    assert_eq!(expiry_at(0, 0), 0);
}

#[test]
fn issued_token_carries_subject_and_expiry() {
    let token = issue_token("wallet-key", 4_000_000_000, "secret");
    let claims = decode_claims(&token, "secret");
    assert_eq!(claims["sub"], "wallet-key");
    assert_eq!(claims["exp"], 4_000_000_000u64);
    // same inputs, same token
    assert_eq!(token, issue_token("wallet-key", 4_000_000_000, "secret"));
}

#[test]
fn token_pair_expiries() {
    let (access, refresh) = issue_token_pair("pk", "s", 1_000, 2_000);
    assert_eq!(decode_claims(&access, "s")["exp"], 1_900u64);
    assert_eq!(decode_claims(&refresh, "s")["exp"], 606_800u64);
    assert_eq!(decode_claims(&refresh, "s")["sub"], "pk");
}

#[test]
fn generated_tokens_verify_under_their_secret_only() {
    let (access, refresh) = generate_tokens("pk", "top-secret");
    assert!(verify_token(&access, "top-secret").0);
    assert!(verify_token(&refresh, "top-secret").0);
    assert!(!verify_token(&access, "other-secret").0);
    assert!(!verify_token("not.a.token", "top-secret").0);
    let exp = decode_claims(&access, "top-secret")["exp"].as_i64().unwrap();
    let t = now();
    assert!(exp >= t + 899 && exp <= t + 901);
}

#[test]
fn expired_token_does_not_verify() {
    let old = issue_token("pk", 1_000, "s");
    assert!(!verify_token(&old, "s").0);
}

#[test]
fn refresh_keeps_the_subject() {
    let (_, refresh) = generate_tokens("subject-key", "s");
    let (access2, refresh2) = refresh_tokens(&refresh, "s").0.unwrap();
    assert_eq!(decode_claims(&access2, "s")["sub"], "subject-key");
    assert_eq!(decode_claims(&refresh2, "s")["sub"], "subject-key");
    assert!(verify_token(&access2, "s").0);
}

#[test]
fn refresh_refuses_bad_or_expired_tokens() {
    assert!(refresh_tokens("garbage", "s").0.is_none());
    let (_, refresh) = generate_tokens("k", "s");
    assert!(refresh_tokens(&refresh, "wrong").0.is_none());
    // expired a few seconds ago: within the decoder's 60 s leeway, refused by the expiry check
    let just_expired = issue_token("k", (now() - 5) as usize, "s");
    assert!(refresh_tokens(&just_expired, "s").0.is_none());
}

#[test]
fn claims_need_both_fields() {
    let c = claims_from_fields(Some("a".to_string()), Some(5)).unwrap();
    assert_eq!(c.sub, "a");
    assert_eq!(c.exp, 5);
    assert!(claims_from_fields(None, Some(5)).is_none());
    assert!(claims_from_fields(Some("a".to_string()), None).is_none());
}

#[test]
fn still_valid_compares_with_now() {
    assert!(still_valid(100, 100));
    assert!(still_valid(101, 100));
    assert!(!still_valid(99, 100));
}

#[test]
fn access_token_from_header_or_cookie() {
    assert_eq!(
        select_access_token(Some("Bearer  abc \t"), Some("cookie".to_string())),
        Some("abc".to_string())
    );
    assert_eq!(
        select_access_token(Some("Token abc"), Some("cookie".to_string())),
        Some("cookie".to_string())
    );
    assert_eq!(select_access_token(None, Some("cookie".to_string())), Some("cookie".to_string()));
    assert_eq!(select_access_token(Some("Token abc"), None), None);
    assert_eq!(select_access_token(None, None), None);
}

#[test]
fn decision_steps() {
    assert!(matches!(access_decision(true, None), AccessDecision::Allow));
    assert!(matches!(access_decision(false, None), AccessDecision::Deny));
    match access_decision(false, Some(("a".to_string(), "r".to_string()))) {
        AccessDecision::AllowWithNewTokens(a, r) => {
            assert_eq!(a, "a");
            assert_eq!(r, "r");
        }
        other => panic!("unexpected {:?}", other),
    }
}

#[test]
fn guard_admits_valid_access_token() {
    let guard = JwtMiddlewareFactory { jwt_secret: "s".to_string() }.new_transform(());
    assert_eq!(guard.jwt_secret, "s");
    let (access, _) = generate_tokens("pk", "s");
    let header = format!("Bearer {}", access);
    assert!(matches!(guard.authorize(Some(&header), None, None).0, AccessDecision::Allow));
    assert!(matches!(guard.authorize(None, Some(access.clone()), None).0, AccessDecision::Allow));
}

#[test]
fn guard_renews_with_refresh_token() {
    let guard = JwtMiddlewareFactory { jwt_secret: "s".to_string() }.new_transform(());
    let (_, refresh) = generate_tokens("pk", "s");
    match guard.authorize(Some("Bearer expired"), None, Some(refresh)).0 {
        AccessDecision::AllowWithNewTokens(a, r) => {
            assert!(verify_token(&a, "s").0);
            assert!(verify_token(&r, "s").0);
            assert_eq!(decode_claims(&a, "s")["sub"], "pk");
        }
        other => panic!("unexpected {:?}", other),
    }
}

#[test]
fn guard_denies_without_valid_tokens() {
    let guard = JwtMiddlewareFactory { jwt_secret: "s".to_string() }.new_transform(());
    assert!(matches!(guard.authorize(None, None, None).0, AccessDecision::Deny));
    let (access, refresh) = generate_tokens("pk", "other");
    assert!(matches!(
        guard.authorize(None, Some(access), Some(refresh)).0,
        AccessDecision::Deny
    ));
}

#[test]
fn never_expiring_tokens_are_always_accepted() {
    let secret = "s3cret";
    let forever = issue_token("wallet", usize::MAX, secret);
    assert!(verify_token(&forever, secret).0);
    assert!(!verify_token(&forever, "other").0);
    let (access, refresh) = refresh_tokens(&forever, secret).0.unwrap();
    assert_eq!(decode_claims(&access, secret)["sub"], "wallet");
    assert_eq!(decode_claims(&refresh, secret)["sub"], "wallet");
    assert!(refresh_tokens(&forever, "other").0.is_none());

    let guard = JwtMiddlewareFactory { jwt_secret: secret.to_string() }.new_transform(());
    let header = format!("Bearer {}", forever);
    assert!(matches!(guard.authorize(Some(&header), None, None).0, AccessDecision::Allow));
    match guard.authorize(None, Some("garbage".to_string()), Some(forever.clone())).0 {
        AccessDecision::AllowWithNewTokens(a, r) => {
            assert_eq!(decode_claims(&a, secret)["sub"], "wallet");
            assert_eq!(decode_claims(&r, secret)["sub"], "wallet");
        }
        other => panic!("expected a renewal, got {:?}", other),
    }
}

#[test]
fn renewal_refuses_missing_or_expired_claims() {
    let t = 1_700_000_000i64;
    assert!(renewal(None, "s", t, t, t).is_none());
    let expired = claims_from_fields(Some("pk".to_string()), Some(1_699_999_999));
    assert!(renewal(expired, "s", t, t, t).is_none());
    let live = claims_from_fields(Some("pk".to_string()), Some(1_700_000_000));
    let (a, r) = renewal(live, "s", t, t, t + 5).unwrap();
    assert_eq!(decode_claims(&a, "s")["exp"], 1_700_000_900u64);
    assert_eq!(decode_claims(&r, "s")["exp"], 1_700_604_805u64);
    assert_eq!(decode_claims(&r, "s")["sub"], "pk");
}

#[test]
fn verification_reads_the_clock_only_for_valid_claims() {
    let (ok, reading) = verify_token("not.a.token", "s");
    assert!(!ok && reading.is_none());
    let (access, _) = generate_tokens("pk", "s");
    let (ok, reading) = verify_token(&access, "s");
    assert!(ok);
    let now = reading.unwrap().unix_seconds();
    assert!(now > 1_600_000_000);
    // Expired by more than the leeway: refused at the reading taken.
    let old = issue_token("pk", 1_000, "s");
    let (ok, reading) = verify_token(&old, "s");
    assert!(!ok && reading.is_some());
    // Expired within the leeway: accepted by the decoder's rule, refused for renewal.
    let recent = issue_token("pk", (now - 30) as usize, "s");
    assert!(verify_token(&recent, "s").0);
    let (renewed, reading) = refresh_tokens(&recent, "s");
    assert!(renewed.is_none() && reading.is_some());
    assert!(!passes_expiry_rule(100, 1_000) && passes_expiry_rule(940, 1_000) && passes_expiry_rule(0, 30));
}
