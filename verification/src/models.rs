//! The data the gateway works with: configuration, request bodies, token
//! claims, user rows and log records.
use vstd::prelude::*;

verus! {

#[verifier::external_type_specification]
#[verifier::external_body]
pub struct ExNaiveDateTime(chrono::NaiveDateTime);

#[verifier::external_type_specification]
#[verifier::external_body]
pub struct ExJsonValue(serde_json::Value);

/// Settings of the gateway.
#[derive(Debug, Clone)]
pub struct Config {
    /// URL of the nonce cache.
    pub redis_url: String,
    /// Secret that signs and checks session tokens.
    pub jwt_secret: String,
}

/// An authentication request: a nonce, the base58 public key of the wallet and
/// its base58 signature of the nonce.
#[derive(Debug)]
pub struct AuthPayload {
    pub nonce: String,
    pub public_key: String,
    pub signature: String,
}

/// The claims of a session token: its subject (a public key) and its expiry
/// (seconds since the Unix epoch).
#[derive(Debug)]
pub struct Claims {
    pub sub: String,
    pub exp: usize,
}

/// A request for a nonce.
#[derive(Debug)]
pub struct ForNonce {
    pub pubkey: String,
}

/// A request to change a user's name.
#[derive(Debug, Clone)]
pub struct ChangeNameUserRequest {
    pub public_key: String,
    pub username: String,
}

/// A request to register a user.
#[derive(Debug, Clone)]
pub struct RegisterUserRequest {
    pub public_key: String,
}

/// A user as the API returns it, with its times as text.
#[derive(Debug, Clone)]
pub struct UserResponse {
    pub public_key: String,
    pub username: Option<String>,
    pub rewards: Option<Vec<String>>,
    pub created_at: String,
    pub last_seen: String,
    pub banned: bool,
    pub ban_reason: Option<String>,
}

/// A calendar date and time of day, as the users table stores them.
/// `second` is 60 during a leap second.
#[derive(Debug, Clone, Copy)]
pub struct DateTimeFields {
    pub year: i32,
    pub month: u32,
    pub day: u32,
    pub hour: u32,
    pub minute: u32,
    pub second: u32,
}

impl DateTimeFields {
    /// The fields are in their calendar ranges, and the year in the range of
    /// `chrono` dates.
    pub open spec fn wf(self) -> bool {
        &&& -262143 <= self.year <= 262142
        &&& 1 <= self.month <= 12
        &&& 1 <= self.day <= 31
        &&& self.hour < 24
        &&& self.minute < 60
        &&& self.second <= 60
    }
}

/// A user row.
#[derive(Debug, Clone)]
pub struct User {
    pub public_key: String,
    pub username: Option<String>,
    pub rewards: Option<Vec<String>>,
    pub created_at: DateTimeFields,
    pub last_seen: DateTimeFields,
    pub banned: bool,
    pub ban_reason: Option<String>,
}

/// A log record; `T` is its id and `Y` its creation time, both absent until
/// the record is stored.
#[derive(Debug, Clone)]
pub struct LogRecord<T, Y> {
    pub id: T,
    pub user_public_key: String,
    pub created_at: Y,
    pub source: String,
    pub error_code: Option<String>,
    pub message: String,
    pub criticality: bool,
    pub context: Option<serde_json::Value>,
}

/// A log record that has not been stored yet.
pub type NewLogRecord = LogRecord<Option<i32>, ()>;

/// A stored log record.
pub type StoredLogRecord = LogRecord<i32, chrono::NaiveDateTime>;

impl LogRecord<Option<i32>, ()> {
    /// The stored form of this record, with the id and creation time the store
    /// gave it.
    pub fn with_id(self, id: i32, created_at: chrono::NaiveDateTime) -> (stored: StoredLogRecord)
        ensures
            stored.id == id,
            stored.created_at == created_at,
            stored.user_public_key == self.user_public_key,
            stored.source == self.source,
            stored.error_code == self.error_code,
            stored.message == self.message,
            stored.criticality == self.criticality,
            stored.context == self.context,
    {
        LogRecord {
            id,
            user_public_key: self.user_public_key,
            created_at,
            source: self.source,
            error_code: self.error_code,
            message: self.message,
            criticality: self.criticality,
            context: self.context,
        }
    }
}

} // verus!
