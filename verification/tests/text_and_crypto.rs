use base64::Engine;
use ed25519_dalek::Signer;
use wallet_auth::auth::decode_credentials;
use wallet_auth::crypto::{check_signer, encode_nonce, generate_nonce};
use wallet_auth::errors::AuthError;
use wallet_auth::text::{strip_bearer_prefix, to_hex_lower, trim_whitespace};

#[test]
fn hex_is_lower_case_two_digits_per_byte() {
    assert_eq!(to_hex_lower(&[0x00, 0x0f, 0xa0, 0xff]), "000fa0ff");
    assert_eq!(to_hex_lower(&[]), "");
}

#[test]
fn nonce_key_is_sha256_hex() {
    assert_eq!(
        encode_nonce("abc"),
        "ba7816bf8f01cfea414140de5dae2223b00361a396177a9cb410ff61f20015ad"
    );
    assert_eq!(
        encode_nonce(""),
        "e3b0c44298fc1c149afbf4c8996fb92427ae41e4649b934ca495991b7852b855"
    );
    assert_eq!(encode_nonce("nonce-1"), encode_nonce("nonce-1"));
    assert_ne!(encode_nonce("nonce-1"), encode_nonce("nonce-2"));
}

#[test]
fn generated_nonce_is_base64_of_32_bytes() {
    let nonce = generate_nonce();
    assert_eq!(nonce.len(), 44);
    let bytes = base64::engine::general_purpose::STANDARD
        .decode(&nonce)
        .unwrap();
    assert_eq!(bytes.len(), 32);
    assert_ne!(generate_nonce(), nonce);
    assert!(nonce.ends_with('=') && !nonce[..43].contains('='));
    assert!(nonce[..43].chars().all(|c| c.is_ascii_alphanumeric() || c == '+' || c == '/'));
}

#[test]
fn trim_removes_unicode_whitespace_at_both_ends() {
    assert_eq!(trim_whitespace("  tok en \t\n"), "tok en");
    assert_eq!(trim_whitespace("\u{3000}x\u{a0}"), "x");
    assert_eq!(trim_whitespace(" \t "), "");
    assert_eq!(trim_whitespace(""), "");
    assert_eq!(trim_whitespace("abc"), "abc");
}

#[test]
fn bearer_prefix_is_case_sensitive() {
    assert_eq!(strip_bearer_prefix("Bearer abc"), Some("abc"));
    assert_eq!(strip_bearer_prefix("Bearer "), Some(""));
    assert_eq!(strip_bearer_prefix("bearer abc"), None);
    assert_eq!(strip_bearer_prefix("Bearer"), None);
    assert_eq!(strip_bearer_prefix("Basic abc"), None);
}

fn signing_key() -> ed25519_dalek::SigningKey {
    ed25519_dalek::SigningKey::from_bytes(&[7u8; 32])
}

#[test]
fn signer_accepts_the_key_owners_signature_only() {
    let key = signing_key();
    let public = key.verifying_key().to_bytes();
    let signature = key.sign("the-nonce".as_bytes()).to_bytes();
    assert!(check_signer("the-nonce", &public, &signature).unwrap());
    assert!(!check_signer("another-nonce", &public, &signature).unwrap());
    let mut tampered = signature;
    tampered[0] ^= 1;
    assert!(!check_signer("the-nonce", &public, &tampered).unwrap());
}

#[test]
fn signer_rejects_a_key_that_is_not_a_curve_point() {
    // y = 2 does not give a point on the curve.
    let mut bad = [0u8; 32];
    bad[0] = 2;
    let signature = [0u8; 64];
    let expected = ed25519_dalek::VerifyingKey::from_bytes(&bad).unwrap_err().to_string();
    match check_signer("n", &bad, &signature) {
        Err(AuthError::MalformedPublicKey(text)) => assert_eq!(text, expected),
        other => panic!("unexpected outcome: {:?}", other),
    }
}

#[test]
fn credentials_decode_from_base58() {
    let key = signing_key();
    let public = key.verifying_key().to_bytes();
    let signature = key.sign(b"n").to_bytes();
    let pk58 = bs58::encode(public).into_string();
    let sig58 = bs58::encode(signature).into_string();
    let (pk, sig) = decode_credentials(&pk58, &sig58).unwrap();
    assert_eq!(pk, public);
    assert_eq!(sig, signature);
}

#[test]
fn credential_errors_come_in_check_order() {
    let pk58 = bs58::encode([1u8; 32]).into_string();
    let sig58 = bs58::encode([1u8; 64]).into_string();
    assert!(matches!(
        decode_credentials("0OIl", &sig58),
        Err(AuthError::PublicKeyEncoding(_))
    ));
    assert!(matches!(
        decode_credentials(&bs58::encode([1u8; 31]).into_string(), "0"),
        Err(AuthError::InvalidPublicKeyLength)
    ));
    assert!(matches!(
        decode_credentials(&pk58, "0"),
        Err(AuthError::SignatureEncoding(_))
    ));
    assert!(matches!(
        decode_credentials(&pk58, &bs58::encode([1u8; 63]).into_string()),
        Err(AuthError::InvalidSignatureLength)
    ));
}

#[test]
fn auth_error_messages() {
    assert_eq!(AuthError::InvalidPublicKeyLength.message(), "Invalid public key length");
    assert_eq!(AuthError::InvalidSignatureLength.message(), "Invalid signature length");
    assert_eq!(AuthError::NonceMismatch.message(), "Nonce not found or does not match");
    assert_eq!(AuthError::InvalidSignature.message(), "Invalid signature");
}


#[test]
fn base58_failures_carry_the_decoder_message() {
    let expected = bs58::decode("0OIl").into_vec().unwrap_err().to_string();
    match decode_credentials("0OIl", "1") {
        Err(AuthError::PublicKeyEncoding(text)) => assert_eq!(text, expected),
        other => panic!("unexpected outcome: {:?}", other),
    }
    let key = bs58::encode([7u8; 32]).into_string();
    let expected = bs58::decode("0").into_vec().unwrap_err().to_string();
    match decode_credentials(&key, "0") {
        Err(AuthError::SignatureEncoding(text)) => assert_eq!(text, expected),
        other => panic!("unexpected outcome: {:?}", other),
    }
}
