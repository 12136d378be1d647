//! The library's error types and their messages.
use vstd::prelude::*;

use redis::RedisError;

use crate::cache::redis_error_text;

verus! {

/// Failures of storing a nonce in the cache.
#[derive(Debug)]
pub enum CacheError {
    /// The cache server could not be reached.
    ConnectionError(RedisError),
    /// A write was refused; holds the cache's error text.
    WriteError(String),
}

impl CacheError {
    /// The error's message, as its `Display` renders it.
    pub fn message(&self) -> (m: String)
        ensures
            match self {
                CacheError::WriteError(s) => m@ == "Failed to store nonce: "@ + s@,
                CacheError::ConnectionError(_) => exists|t: Seq<char>|
                    m@ == "Redis connection failed: "@ + t,
            },
    {
        match self {
            CacheError::ConnectionError(e) => {
                let mut m = "Redis connection failed: ".to_owned();
                let t = redis_error_text(e);
                m.append(t.as_str());
                m
            },
            CacheError::WriteError(s) => {
                let mut m = "Failed to store nonce: ".to_owned();
                m.append(s.as_str());
                m
            },
        }
    }
}

/// Why an authentication attempt was refused. Errors that come from an
/// outside library carry that error's text.
#[derive(Debug)]
pub enum AuthError {
    /// The public key is not valid base58; the decoder's message.
    PublicKeyEncoding(String),
    /// The public key does not decode to 32 bytes.
    InvalidPublicKeyLength,
    /// The signature is not valid base58; the decoder's message.
    SignatureEncoding(String),
    /// The signature does not decode to 64 bytes.
    InvalidSignatureLength,
    /// The nonce is unknown, spent, issued to another key, or the cache failed.
    NonceMismatch,
    /// The public key bytes are not a valid Ed25519 key; the library's message.
    MalformedPublicKey(String),
    /// Marking the nonce as spent failed; the cache's message.
    Cache(String),
    /// The signature does not verify.
    InvalidSignature,
}

/// The message of an authentication error.
pub open spec fn auth_error_text(e: AuthError) -> Seq<char> {
    match e {
        AuthError::PublicKeyEncoding(t) => t@,
        AuthError::InvalidPublicKeyLength => "Invalid public key length"@,
        AuthError::SignatureEncoding(t) => t@,
        AuthError::InvalidSignatureLength => "Invalid signature length"@,
        AuthError::NonceMismatch => "Nonce not found or does not match"@,
        AuthError::MalformedPublicKey(t) => t@,
        AuthError::Cache(t) => t@,
        AuthError::InvalidSignature => "Invalid signature"@,
    }
}

impl AuthError {
    /// The error's message, as the boxed error renders it.
    pub fn message(&self) -> (m: String)
        ensures
            m@ == auth_error_text(*self),
    {
        match self {
            AuthError::PublicKeyEncoding(t) => t.clone(),
            AuthError::InvalidPublicKeyLength => "Invalid public key length".to_owned(),
            AuthError::SignatureEncoding(t) => t.clone(),
            AuthError::InvalidSignatureLength => "Invalid signature length".to_owned(),
            AuthError::NonceMismatch => "Nonce not found or does not match".to_owned(),
            AuthError::MalformedPublicKey(t) => t.clone(),
            AuthError::Cache(t) => t.clone(),
            AuthError::InvalidSignature => "Invalid signature".to_owned(),
        }
    }
}

} // verus!
