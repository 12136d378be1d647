//! The work of the nonce and authentication endpoints, short of the HTTP
//! framework: from the request body and the settings to the reply.
use vstd::prelude::*;

use crate::auth::{authenticate, authentication_exchanges, credentials_decode, NonceTrail};
use crate::cache::{put_exchanges, put_nonce_into_cache_checked, redis_url_accepted, CacheConnection};
use crate::crypto::{base64_standard, generate_nonce};
use crate::errors::{AuthError, CacheError};
use crate::models::{AuthPayload, Config, ForNonce};
use crate::replies::{
    authentication_reply,
    authentication_reply_matches,
    nonce_reply,
    nonce_reply_matches,
    CookieSpec,
    Reply,
};

verus! {

/// `reply` answers a nonce request for `pubkey` against the cache at `url`,
/// with the connection `con` used: for some fresh nonce (the base64 text of 32
/// bytes), storing it for `pubkey` came to an outcome (a connection error with
/// no connection, or the store's exchanges over a connection to `url`), and
/// `reply` is the nonce reply to that outcome.
pub open spec fn nonce_issued(
    url: Seq<char>,
    pubkey: Seq<char>,
    reply: Reply,
    con: Option<CacheConnection>,
) -> bool {
    exists|nonce: Seq<char>, stored: Result<(), CacheError>|
        #![trigger nonce_reply_matches(nonce, stored, reply)]
        {
            &&& exists|bytes: Seq<u8>| bytes.len() == 32 && nonce == base64_standard(bytes)
            &&& match con {
                None => stored matches Err(CacheError::ConnectionError(_)),
                Some(c) => c.target() == url && put_exchanges(nonce, pubkey, stored, c.exchanges()),
            }
            &&& nonce_reply_matches(nonce, stored, reply)
        }
}

/// `answer` answers an authentication of `payload` against the cache at
/// `url` that used the connections `trail`: the authentication came, by those
/// connections, to an outcome, and `answer` is the authentication reply to it.
pub open spec fn authentication_answered(
    payload: AuthPayload,
    secret: Seq<char>,
    url: Seq<char>,
    answer: (Reply, Option<(CookieSpec, CookieSpec)>),
    trail: NonceTrail,
) -> bool {
    exists|outcome: Result<(String, String), AuthError>|
        #![trigger authentication_exchanges(payload, secret, url, outcome, trail)]
        authentication_exchanges(payload, secret, url, outcome, trail) && authentication_reply_matches(
            outcome,
            answer,
        )
}

/// Issues a nonce to the requesting public key: a fresh random nonce, stored
/// in the cache for that key, is returned as `{"nonce": ...}`; a storage
/// failure gives a server error. `None` exactly when the cache client does not
/// accept the cache URL (then no connection is opened). Also gives the
/// connection the nonce was stored over.
pub fn nonce_endpoint(payload: &ForNonce, cfg: &Config) -> (res: (
    Option<Reply>,
    Option<CacheConnection>,
))
    ensures
        res.0 is None <==> !redis_url_accepted(cfg.redis_url@),
        res.0 is None ==> res.1 is None,
        res.0 matches Some(reply) ==> nonce_issued(cfg.redis_url@, payload.pubkey@, reply, res.1),
{
    let nonce = generate_nonce();
    let (stored, con) = put_nonce_into_cache_checked(
        nonce.as_str(),
        payload.pubkey.as_str(),
        cfg.redis_url.as_str(),
    );
    match stored {
        None => (None, con),
        Some(stored) => {
            let reply = nonce_reply(nonce.as_str(), &stored);
            assert(nonce_reply_matches(nonce@, stored, reply));
            assert(nonce_issued(cfg.redis_url@, payload.pubkey@, reply, con));
            (Some(reply), con)
        },
    }
}

/// Authenticates a wallet and answers: `{"status": "ok"}` with the session
/// cookies, or `401` with the reason. `None` exactly where the credentials
/// decode but the cache client does not accept the cache URL. Also gives the
/// cache connections used.
pub fn authentication_endpoint(payload: &AuthPayload, cfg: &Config) -> (res: (
    Option<(Reply, Option<(CookieSpec, CookieSpec)>)>,
    NonceTrail,
))
    ensures
        res.0 is None <==> (credentials_decode(payload.public_key@, payload.signature@)
            && !redis_url_accepted(cfg.redis_url@)),
        res.0 is None ==> res.1.check is None && res.1.spend is None,
        res.0 matches Some(answer) ==> authentication_answered(
            *payload,
            cfg.jwt_secret@,
            cfg.redis_url@,
            answer,
            res.1,
        ),
{
    let (outcome, trail) = authenticate(payload, cfg);
    match outcome {
        None => (None, trail),
        Some(outcome) => {
            let answer = authentication_reply(&outcome);
            assert(authentication_exchanges(
                *payload,
                cfg.jwt_secret@,
                cfg.redis_url@,
                outcome,
                trail,
            ));
            (Some(answer), trail)
        },
    }
}

} // verus!
