//! Verified core of a wallet-based authentication gateway: nonce issuing and
//! checking, signature checks, JWT session tokens, the access guard and the
//! replies of the HTTP endpoints.
pub mod auth;
pub mod cache;
pub mod cache_link;
pub mod clock;
pub mod crypto;
pub mod endpoints;
pub mod errors;
pub mod middleware;
pub mod models;
pub mod proxy;
pub mod replies;
pub mod text;
pub mod tokens;
pub mod users;
