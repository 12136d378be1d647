//! Wallet authentication: a client proves ownership of a public key by signing
//! a nonce it was issued; in return it gets a session.
use vstd::prelude::*;

use redis::RedisError;

use crate::cache::{
    accepted_writes,
    answers_from_writes,
    check_nonce_in_cache,
    exchanges_of,
    fresh_entry,
    is_nonce_read,
    law_fresh_nonce_refuses_other_keys,
    law_spent_nonce_admits_nobody,
    leaves_field,
    lemma_entry_after_store,
    lemma_flag_after_spend,
    lemma_later_writes_decide,
    lemma_untouched_field,
    lemma_fields_distinct_pub,
    address_field,
    flag_field,
    hash_value,
    hash_read,
    checked_fields,
    lemma_accepted_writes_concat,
    lemma_check_writes_nothing,
    lemma_read_after,
    lemma_spent_writes,
    lemma_stored_writes,
    nonce_admitted,
    put_exchanges,
    redis_url_accepted,
    reply_of,
    reverse_flag,
    spend_exchange,
    spend_write,
    CacheConnection,
    CacheExchange,
};
use crate::cache::law_fresh_nonce_admits_owner;
use crate::cache::redis_error_text;
use crate::crypto::{
    base58_decoded,
    check_signer,
    decode_base58,
    ed25519_key_decodes,
    ed25519_strict_valid,
    nonce_key,
};
use crate::errors::AuthError;
use crate::models::{AuthPayload, Config};
use crate::clock::{read_clock, ClockReading};
use crate::tokens::{
    issue_session,
    issued_at,
    is_session_for,
    law_issued_session_lifetimes,
    token_expiry,
    token_subject,
    within_leeway,
    ACCESS_TOKEN_LIFETIME,
    CLOCK_MAX,
    JWT_LEEWAY_SECONDS,
    REFRESH_TOKEN_LIFETIME,
};

verus! {

/// Both credentials decode from base58, the public key to 32 bytes and the
/// signature to 64 bytes.
pub open spec fn credentials_decode(public_key: Seq<char>, signature: Seq<char>) -> bool {
    &&& base58_decoded(public_key) matches Ok(pk) && pk.len() == 32
    &&& base58_decoded(signature) matches Ok(sig) && sig.len() == 64
}

/// The decoded public key bytes (meaningful when `credentials_decode` holds).
pub open spec fn public_key_bytes(public_key: Seq<char>) -> Seq<u8> {
    base58_decoded(public_key)->Ok_0
}

/// The decoded signature bytes (meaningful when `credentials_decode` holds).
pub open spec fn signature_bytes(signature: Seq<char>) -> Seq<u8> {
    base58_decoded(signature)->Ok_0
}

/// How decoding the credentials fails, in the order the checks are made:
/// public key encoding (with the decoder's message), its length, signature
/// encoding (with the decoder's message), its length.
pub open spec fn credential_failure_matches(
    public_key: Seq<char>,
    signature: Seq<char>,
    e: AuthError,
) -> bool {
    match base58_decoded(public_key) {
        Err(m) => e matches AuthError::PublicKeyEncoding(t) && t@ == m,
        Ok(pk) => if pk.len() != 32 {
            e is InvalidPublicKeyLength
        } else {
            match base58_decoded(signature) {
                Err(m) => e matches AuthError::SignatureEncoding(t) && t@ == m,
                Ok(sig) => sig.len() != 64 && e is InvalidSignatureLength,
            }
        },
    }
}

fn to_array32(v: &Vec<u8>) -> (a: [u8; 32])
    requires
        v@.len() == 32,
    ensures
        a@ == v@,
{
    let mut a = [0u8; 32];
    let mut i: usize = 0;
    while i < 32
        invariant
            v@.len() == 32,
            i <= 32,
            forall|j: int| 0 <= j < i ==> a@[j] == v@[j],
        decreases 32 - i,
    {
        a[i] = v[i];
        i = i + 1;
    }
    assert(a@ =~= v@);
    a
}

fn to_array64(v: &Vec<u8>) -> (a: [u8; 64])
    requires
        v@.len() == 64,
    ensures
        a@ == v@,
{
    let mut a = [0u8; 64];
    let mut i: usize = 0;
    while i < 64
        invariant
            v@.len() == 64,
            i <= 64,
            forall|j: int| 0 <= j < i ==> a@[j] == v@[j],
        decreases 64 - i,
    {
        a[i] = v[i];
        i = i + 1;
    }
    assert(a@ =~= v@);
    a
}

/// Decodes the base58 public key (32 bytes) and signature (64 bytes).
pub fn decode_credentials(public_key: &str, signature: &str) -> (res: Result<
    ([u8; 32], [u8; 64]),
    AuthError,
>)
    ensures
        res is Ok <==> credentials_decode(public_key@, signature@),
        res matches Ok((pk, sig)) ==> pk@ == public_key_bytes(public_key@) && sig@
            == signature_bytes(signature@),
        res matches Err(e) ==> credential_failure_matches(public_key@, signature@, e),
{
    let public_key_vec = match decode_base58(public_key) {
        Ok(v) => v,
        Err(message) => return Err(AuthError::PublicKeyEncoding(message)),
    };
    if public_key_vec.len() != 32 {
        return Err(AuthError::InvalidPublicKeyLength);
    }
    let public_key_bytes = to_array32(&public_key_vec);
    let signature_vec = match decode_base58(signature) {
        Ok(v) => v,
        Err(message) => return Err(AuthError::SignatureEncoding(message)),
    };
    if signature_vec.len() != 64 {
        return Err(AuthError::InvalidSignatureLength);
    }
    let signature_bytes = to_array64(&signature_vec);
    Ok((public_key_bytes, signature_bytes))
}

/// The signature is a strict Ed25519 signature of the nonce's UTF-8 bytes
/// under a valid public key.
pub open spec fn signature_proves_ownership(payload: AuthPayload) -> bool {
    &&& ed25519_key_decodes(public_key_bytes(payload.public_key@))
    &&& ed25519_strict_valid(
        public_key_bytes(payload.public_key@),
        vstd::utf8::encode_utf8(payload.nonce@),
        signature_bytes(payload.signature@),
    )
}

/// A session for `pubkey` under `secret`: an access and a refresh token issued
/// for it at two readings of the clock.
pub open spec fn is_session(tokens: (String, String), pubkey: Seq<char>, secret: Seq<char>) -> bool {
    &&& is_session_for((tokens.0@, tokens.1@), pubkey, secret)
    &&& token_subject(tokens.0@, secret) == Some(pubkey)
    &&& token_subject(tokens.1@, secret) == Some(pubkey)
}

/// What an authentication attempt comes to, from what its steps gave: the
/// nonce check, then (only after the nonce was admitted) the signature check,
/// then (only after the key decoded) the spending of the nonce. A session is
/// owed only after an admitted nonce, a spent nonce and a valid signature; any
/// other nonce-check result is a nonce mismatch; an invalid signature is
/// reported after the nonce has been spent.
pub fn authentication_verdict(
    nonce_check: Result<bool, RedisError>,
    signature: Option<Result<bool, AuthError>>,
    spend: Option<Result<(), RedisError>>,
) -> (res: Result<(), AuthError>)
    requires
        nonce_check matches Ok(true) ==> signature is Some,
        signature matches Some(Ok(_)) ==> spend is Some,
    ensures
        !(nonce_check matches Ok(true)) ==> res matches Err(AuthError::NonceMismatch),
        nonce_check matches Ok(true) ==> match signature->0 {
            Err(e) => res == Err::<(), AuthError>(e),
            Ok(valid) => match spend->0 {
                Err(_) => res matches Err(AuthError::Cache(_)),
                Ok(()) => if valid {
                    res is Ok
                } else {
                    res matches Err(AuthError::InvalidSignature)
                },
            },
        },
{
    match nonce_check {
        Ok(true) => {},
        _ => return Err(AuthError::NonceMismatch),
    }
    let valid = match signature {
        Some(Ok(valid)) => valid,
        Some(Err(e)) => return Err(e),
        None => return Err(AuthError::NonceMismatch),
    };
    match spend {
        Some(Ok(())) => {},
        Some(Err(e)) => return Err(AuthError::Cache(redis_error_text(&e))),
        None => return Err(AuthError::NonceMismatch),
    }
    if valid {
        Ok(())
    } else {
        Err(AuthError::InvalidSignature)
    }
}

/// What an authentication used: the cache connections, each when it was
/// opened (the one that checked the nonce and the one that spent it), and the
/// clock reading its session was issued at, when it issued one.
pub struct NonceTrail {
    pub check: Option<CacheConnection>,
    pub spend: Option<CacheConnection>,
    pub issued: Option<ClockReading>,
}

/// The session an authentication came to was issued at the clock reading it
/// recorded: a session is issued, at that reading, exactly when the
/// authentication succeeds.
pub open spec fn session_issued(
    payload: AuthPayload,
    secret: Seq<char>,
    res: Result<(String, String), AuthError>,
    issued: Option<ClockReading>,
) -> bool {
    match res {
        Ok(tokens) => issued matches Some(at) && 0 <= at.seconds() <= CLOCK_MAX && issued_at(
            (tokens.0@, tokens.1@),
            payload.public_key@,
            secret,
            at.seconds(),
        ),
        Err(_) => issued is None,
    }
}

/// All exchanges an authentication made with the cache, in order.
pub open spec fn trail_exchanges(trail: NonceTrail) -> Seq<CacheExchange> {
    exchanges_of(trail.check) + exchanges_of(trail.spend)
}

/// The rest of an authentication once the nonce read `checked` was made: a
/// nonce that was not admitted ends it with a nonce mismatch and nothing
/// spent; a public key that is not a valid Ed25519 key ends it with that
/// error and nothing spent; otherwise the nonce is spent over a connection to
/// `url`: a failed connection or a refused write is a cache error, and after
/// the spend the signature decides between a session and `InvalidSignature`.
pub open spec fn after_nonce_check(
    payload: AuthPayload,
    secret: Seq<char>,
    url: Seq<char>,
    checked: Seq<CacheExchange>,
    res: Result<(String, String), AuthError>,
    spend: Option<CacheConnection>,
) -> bool {
    if !nonce_admitted(payload.public_key@, checked) {
        res matches Err(AuthError::NonceMismatch) && spend is None
    } else if !ed25519_key_decodes(public_key_bytes(payload.public_key@)) {
        res matches Err(AuthError::MalformedPublicKey(_)) && spend is None
    } else {
        match spend {
            None => res matches Err(AuthError::Cache(_)),
            Some(s) => s.target() == url && {
                ||| s.exchanges() == seq![spend_exchange(payload.nonce@, false)] && res matches Err(
                    AuthError::Cache(_),
                )
                ||| s.exchanges() == seq![spend_exchange(payload.nonce@, true)] && if signature_proves_ownership(
                    payload,
                ) {
                    res matches Ok(tokens) && is_session(tokens, payload.public_key@, secret)
                } else {
                    res matches Err(AuthError::InvalidSignature)
                }
            },
        }
    }
}

/// An authentication of `payload` against the cache at `url` used the
/// connections `trail` and came to `res`: credentials that do not decode are
/// refused with the first decoding failure and no connection; otherwise the
/// nonce is read for the payload's public key over a connection to `url` (a
/// failed connection is a nonce mismatch and ends it), and the rest goes as
/// `after_nonce_check` says.
pub open spec fn authentication_exchanges(
    payload: AuthPayload,
    secret: Seq<char>,
    url: Seq<char>,
    res: Result<(String, String), AuthError>,
    trail: NonceTrail,
) -> bool {
    &&& session_issued(payload, secret, res, trail.issued)
    &&& if !credentials_decode(payload.public_key@, payload.signature@) {
        &&& trail.check is None
        &&& trail.spend is None
        &&& res matches Err(e) && credential_failure_matches(
            payload.public_key@,
            payload.signature@,
            e,
        )
    } else {
        match trail.check {
            None => res matches Err(AuthError::NonceMismatch) && trail.spend is None,
            Some(c) => {
                &&& c.target() == url
                &&& is_nonce_read(payload.nonce@, c.exchanges())
                &&& after_nonce_check(payload, secret, url, c.exchanges(), res, trail.spend)
            },
        }
    }
}

/// Authenticates a wallet: decodes its credentials, checks that the nonce was
/// issued to its public key and is unspent, checks the signature of the nonce,
/// marks the nonce as spent, and on a valid signature issues a session for
/// the public key. Also gives the cache connections it used.
pub fn authentification_hendler(payload: &AuthPayload, cfg: &Config) -> (res: (
    Result<(String, String), AuthError>,
    NonceTrail,
))
    requires
        credentials_decode(payload.public_key@, payload.signature@) ==> redis_url_accepted(
            cfg.redis_url@,
        ),
    ensures
        authentication_exchanges(*payload, cfg.jwt_secret@, cfg.redis_url@, res.0, res.1),
{
    let (public_key_bytes, signature_bytes) = match decode_credentials(
        payload.public_key.as_str(),
        payload.signature.as_str(),
    ) {
        Ok(decoded) => decoded,
        Err(e) => return (Err(e), NonceTrail { check: None, spend: None, issued: None }),
    };
    let (check, check_con) = check_nonce_in_cache(
        payload.nonce.as_str(),
        payload.public_key.as_str(),
        cfg.redis_url.as_str(),
    );
    let admitted = match &check {
        Ok(true) => true,
        _ => false,
    };
    assert(check_con is Some ==> admitted == nonce_admitted(
        payload.public_key@,
        exchanges_of(check_con),
    ));
    let mut signature: Option<Result<bool, AuthError>> = None;
    let mut spend: Option<Result<(), RedisError>> = None;
    let mut spend_con: Option<CacheConnection> = None;
    if admitted {
        let sig = check_signer(payload.nonce.as_str(), &public_key_bytes, &signature_bytes);
        if sig.is_ok() {
            let (sp, sc) = reverse_flag(payload.nonce.as_str(), cfg.redis_url.as_str());
            spend = Some(sp);
            spend_con = sc;
        }
        signature = Some(sig);
    }
    let verdict = authentication_verdict(check, signature, spend);
    let mut issued: Option<ClockReading> = None;
    let res = match verdict {
        Ok(()) => {
            let at = read_clock();
            let tokens = issue_session(payload.public_key.as_str(), cfg.jwt_secret.as_str(), &at);
            proof {
                law_issued_session_lifetimes(
                    (tokens.0@, tokens.1@),
                    payload.public_key@,
                    cfg.jwt_secret@,
                    at.seconds(),
                );
            }
            issued = Some(at);
            Ok(tokens)
        },
        Err(e) => Err(e),
    };
    (res, NonceTrail { check: check_con, spend: spend_con, issued })
}

/// `authentification_hendler` for any configuration: `None` exactly where
/// that call would panic (the credentials decode but the cache client does
/// not accept the cache URL; then no connection is opened), else its outcome.
pub fn authenticate(payload: &AuthPayload, cfg: &Config) -> (res: (
    Option<Result<(String, String), AuthError>>,
    NonceTrail,
))
    ensures
        res.0 is None <==> (credentials_decode(payload.public_key@, payload.signature@)
            && !redis_url_accepted(cfg.redis_url@)),
        res.0 is None ==> res.1.check is None && res.1.spend is None,
        res.0 matches Some(outcome) ==> authentication_exchanges(
            *payload,
            cfg.jwt_secret@,
            cfg.redis_url@,
            outcome,
            res.1,
        ),
{
    if decode_credentials(payload.public_key.as_str(), payload.signature.as_str()).is_ok()
        && !crate::cache::cache_url_accepted(cfg.redis_url.as_str()) {
        (None, NonceTrail { check: None, spend: None, issued: None })
    } else {
        let (outcome, trail) = authentification_hendler(payload, cfg);
        (Some(outcome), trail)
    }
}

/// The first exchange is a write that was accepted.
pub open spec fn spend_accepted(log: Seq<CacheExchange>) -> bool {
    log.len() >= 1 && match log[0] {
        CacheExchange::SetField { done, .. } => done,
        _ => false,
    }
}

/// Every exchange of an authentication went through: the nonce was read over
/// an open connection and got a reply, and the spend was made over an open
/// connection and accepted.
pub open spec fn all_accepted(trail: NonceTrail) -> bool {
    &&& trail.check matches Some(c) && reply_of(c.exchanges()) is Some
    &&& trail.spend matches Some(s) && spend_accepted(s.exchanges())
}

/// A nonce admits only the public key it was issued to: after the nonce was
/// stored for `owner`, an authentication with it by another public key is
/// refused, with a nonce mismatch when its credentials decode. This holds
/// whatever came before the store, as long as nothing in between wrote the
/// nonce's address and the cache answered reads from the writes it accepted.
pub proof fn law_nonce_admits_only_its_owner(
    url: Seq<char>,
    secret: Seq<char>,
    payload: AuthPayload,
    owner: Seq<char>,
    before: Seq<CacheExchange>,
    stored: Seq<CacheExchange>,
    between: Seq<CacheExchange>,
    res: Result<(String, String), AuthError>,
    trail: NonceTrail,
)
    requires
        put_exchanges(payload.nonce@, owner, Ok(()), stored),
        leaves_field(between, nonce_key(payload.nonce@), address_field()),
        payload.public_key@ != owner,
        authentication_exchanges(payload, secret, url, res, trail),
        answers_from_writes(before + stored + between + trail_exchanges(trail)),
    ensures
        res is Err,
        credentials_decode(payload.public_key@, payload.signature@) ==> res matches Err(
            AuthError::NonceMismatch,
        ),
{
    let n = payload.nonce@;
    let key = nonce_key(n);
    if credentials_decode(payload.public_key@, payload.signature@) {
        if let Some(c) = trail.check {
            if nonce_admitted(payload.public_key@, c.exchanges()) {
                let r = reply_of(c.exchanges())->0;
                let prior = before + stored + between;
                assert(before + stored + between + trail_exchanges(trail) =~= prior + c.exchanges()
                    + exchanges_of(trail.spend));
                lemma_read_after(prior, c.exchanges(), exchanges_of(trail.spend), n, r);
                lemma_accepted_writes_concat(before, stored, key);
                lemma_accepted_writes_concat(before + stored, between, key);
                lemma_stored_writes(n, owner, stored);
                let w = accepted_writes(before, key) + fresh_entry(owner);
                lemma_untouched_field(w, accepted_writes(between, key), address_field());
                law_fresh_nonce_admits_owner(owner);
                assert(checked_fields()[0] == address_field());
                assert(hash_read(fresh_entry(owner), checked_fields())[0] == hash_value(
                    fresh_entry(owner),
                    address_field(),
                ));
                assert(hash_value(fresh_entry(owner), address_field()) == Some(owner));
                lemma_later_writes_decide(
                    accepted_writes(before, key),
                    fresh_entry(owner),
                    address_field(),
                );
                assert(r[0] == hash_value(accepted_writes(prior, key), address_field()));
            }
        }
    }
}

/// A signed nonce authenticates once: after an authentication with a payload
/// succeeded, a later authentication with the same payload is refused with a
/// nonce mismatch. This holds whatever came before, as long as nothing in
/// between wrote the nonce's flag (the nonce was not stored anew) and the
/// cache answered reads from the writes it accepted.
pub proof fn law_signed_nonce_authenticates_once(
    url: Seq<char>,
    secret: Seq<char>,
    payload: AuthPayload,
    before: Seq<CacheExchange>,
    first: Result<(String, String), AuthError>,
    trail1: NonceTrail,
    between: Seq<CacheExchange>,
    second: Result<(String, String), AuthError>,
    trail2: NonceTrail,
)
    requires
        authentication_exchanges(payload, secret, url, first, trail1),
        first is Ok,
        leaves_field(between, nonce_key(payload.nonce@), flag_field()),
        authentication_exchanges(payload, secret, url, second, trail2),
        answers_from_writes(
            before + trail_exchanges(trail1) + between + trail_exchanges(trail2),
        ),
    ensures
        second matches Err(AuthError::NonceMismatch),
{
    let n = payload.nonce@;
    let pk = payload.public_key@;
    let key = nonce_key(n);
    let c1 = trail1.check->0;
    let s1 = trail1.spend->0;
    lemma_check_writes_nothing(n, c1.exchanges(), key);
    lemma_accepted_writes_concat(before, c1.exchanges(), key);
    assert(accepted_writes(before, key) + Seq::<(Seq<char>, Seq<char>)>::empty() =~= accepted_writes(
        before,
        key,
    ));
    let spent_before = before + c1.exchanges();
    assert(before + trail_exchanges(trail1) =~= spent_before + s1.exchanges());
    if let Some(c2) = trail2.check {
        if nonce_admitted(pk, c2.exchanges()) {
            let r = reply_of(c2.exchanges())->0;
            let prior = spent_before + s1.exchanges() + between;
            assert(before + trail_exchanges(trail1) + between + trail_exchanges(trail2) =~= prior
                + c2.exchanges() + exchanges_of(trail2.spend));
            lemma_read_after(prior, c2.exchanges(), exchanges_of(trail2.spend), n, r);
            lemma_flag_after_spend(n, spent_before, s1.exchanges(), between);
            lemma_fields_distinct_pub();
            assert(r[1] == hash_value(accepted_writes(prior, key), flag_field()));
        }
    }
}

/// The owner of a stored nonce who signed it gets a session: when every
/// exchange of the authentication went through, nothing wrote the nonce's
/// entry since it was stored (whatever came before), and the cache answered
/// reads from the writes it accepted, a valid signature of the nonce by the
/// public key it was issued to yields a session for that key.
pub proof fn law_owner_signature_yields_session(
    url: Seq<char>,
    secret: Seq<char>,
    payload: AuthPayload,
    before: Seq<CacheExchange>,
    stored: Seq<CacheExchange>,
    between: Seq<CacheExchange>,
    res: Result<(String, String), AuthError>,
    trail: NonceTrail,
)
    requires
        put_exchanges(payload.nonce@, payload.public_key@, Ok(()), stored),
        accepted_writes(between, nonce_key(payload.nonce@)).len() == 0,
        credentials_decode(payload.public_key@, payload.signature@),
        signature_proves_ownership(payload),
        authentication_exchanges(payload, secret, url, res, trail),
        answers_from_writes(before + stored + between + trail_exchanges(trail)),
        all_accepted(trail),
    ensures
        res matches Ok(tokens) && is_session(tokens, payload.public_key@, secret),
{
    let n = payload.nonce@;
    let pk = payload.public_key@;
    let c = trail.check->0;
    let r = reply_of(c.exchanges())->0;
    let prior = before + stored + between;
    assert(prior + trail_exchanges(trail) =~= prior + c.exchanges() + exchanges_of(trail.spend));
    lemma_read_after(prior, c.exchanges(), exchanges_of(trail.spend), n, r);
    lemma_entry_after_store(n, pk, before, stored, between);
    law_fresh_nonce_admits_owner(pk);
    let s = trail.spend->0;
    assert(s.exchanges()[0] == spend_exchange(n, false) ==> false);
}

/// A successful authentication yields a live session: its access token
/// carries the payload's public key and passes the decoder's expiry rule at
/// every clock reading from the one the session was issued at until the
/// access lifetime and the leeway have passed; so `verify_token` accepts it
/// right after the authentication.
pub proof fn law_authenticated_session_is_live(
    url: Seq<char>,
    secret: Seq<char>,
    payload: AuthPayload,
    tokens: (String, String),
    trail: NonceTrail,
    at: ClockReading,
    later: int,
)
    requires
        authentication_exchanges(payload, secret, url, Ok(tokens), trail),
        trail.issued == Some(at),
        CLOCK_MAX + REFRESH_TOKEN_LIFETIME <= usize::MAX,
        at.seconds() <= later <= at.seconds() + ACCESS_TOKEN_LIFETIME + JWT_LEEWAY_SECONDS,
    ensures
        token_subject(tokens.0@, secret) == Some(payload.public_key@),
        token_subject(tokens.1@, secret) == Some(payload.public_key@),
        token_expiry(tokens.0@, secret) == at.seconds() + ACCESS_TOKEN_LIFETIME,
        token_expiry(tokens.1@, secret) == at.seconds() + REFRESH_TOKEN_LIFETIME,
        within_leeway(token_expiry(tokens.0@, secret) as int, later),
{
    law_issued_session_lifetimes((tokens.0@, tokens.1@), payload.public_key@, secret, at.seconds());
}

} // verus!
