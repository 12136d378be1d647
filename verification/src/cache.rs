//! The nonce cache: a Redis hash per nonce, keyed by the nonce's digest, with
//! the owning public key and a "spent" flag. Each operation gives back the
//! connection it used, whose record of exchanges (kept by `cache_link`) shows
//! the commands sent and what came of each. The laws say what a cache that
//! answers reads from the writes it accepted makes of them.
use vstd::prelude::*;

use redis::RedisError;

pub use crate::cache_link::{
    cache_url_accepted,
    get_redis_connection,
    redis_url_accepted,
    CacheConnection,
    CacheExchange,
};
use crate::cache_link::read_reply;

use crate::crypto::nonce_key;

verus! {

#[verifier::external_type_specification]
#[verifier::external_body]
pub struct ExRedisError(redis::RedisError);

/// Trusted: the `Display` text of a Redis error. Nothing is stated of the
/// text.
#[verifier::external_body]
pub(crate) fn redis_error_text(e: &RedisError) -> String {
    e.to_string()
}

/// Seconds a stored nonce lives in the cache.
pub const NONCE_TTL_SECONDS: i64 = 60;

/// Name of the hash field that holds the public key a nonce was issued to.
pub open spec fn address_field() -> Seq<char> {
    seq!['a', 'd', 'd', 'r', 'e', 's', 's']
}

/// Name of the hash field that tells whether a nonce has been spent.
pub open spec fn flag_field() -> Seq<char> {
    seq!['f', 'l', 'a', 'g']
}

/// Flag value of a nonce that has not been used yet.
pub open spec fn unspent() -> Seq<char> {
    seq!['f', 'a', 'l', 's', 'e']
}

/// Flag value of a nonce that has been used.
pub open spec fn spent() -> Seq<char> {
    seq!['t', 'r', 'u', 'e']
}

/// The field writes as plain text.
pub open spec fn writes_view(items: Seq<(String, String)>) -> Seq<(Seq<char>, Seq<char>)> {
    items.map_values(|p: (String, String)| (p.0@, p.1@))
}

/// The replies of a multi-field read as plain text.
pub open spec fn reply_view(vals: Seq<Option<String>>) -> Seq<Option<Seq<char>>> {
    vals.map_values(
        |v: Option<String>|
            match v {
                Some(s) => Some(s@),
                None => None,
            },
    )
}

/// The field writes that store a fresh nonce for `pubkey`.
pub open spec fn fresh_entry(pubkey: Seq<char>) -> Seq<(Seq<char>, Seq<char>)> {
    seq![(address_field(), pubkey), (flag_field(), unspent())]
}

/// The field write that marks a nonce as spent.
pub open spec fn spend_write() -> (Seq<char>, Seq<char>) {
    (flag_field(), spent())
}

/// The fields read back when a nonce is checked, in order.
pub open spec fn checked_fields() -> Seq<Seq<char>> {
    seq![address_field(), flag_field()]
}

/// The value a hash holds in `field` after the writes `writes`, applied in
/// order: the last write to the field wins.
pub open spec fn hash_value(writes: Seq<(Seq<char>, Seq<char>)>, field: Seq<char>) -> Option<
    Seq<char>,
>
    decreases writes.len(),
{
    if writes.len() == 0 {
        None
    } else if writes.last().0 == field {
        Some(writes.last().1)
    } else {
        hash_value(writes.drop_last(), field)
    }
}

/// What a multi-field read returns of a hash built by `writes`.
pub open spec fn hash_read(writes: Seq<(Seq<char>, Seq<char>)>, fields: Seq<Seq<char>>) -> Seq<
    Option<Seq<char>>,
> {
    fields.map_values(|f: Seq<char>| hash_value(writes, f))
}

/// A nonce entry, read back as (address, flag), lets `pubkey` in: both fields
/// are present, the address is `pubkey` and the nonce is unspent.
pub open spec fn entry_admits(reply: Seq<Option<Seq<char>>>, pubkey: Seq<char>) -> bool {
    &&& reply.len() == 2
    &&& reply[0] == Some(pubkey)
    &&& reply[1] == Some(unspent())
}

fn text(s: &str) -> (t: String)
    ensures
        t@ == s@,
{
    s.to_owned()
}

/// The field writes that store a fresh nonce issued to `pubkey`.
pub fn nonce_fields(pubkey: &str) -> (items: Vec<(String, String)>)
    ensures
        writes_view(items@) == fresh_entry(pubkey@),
{
    proof {
        reveal_strlit("address");
        reveal_strlit("flag");
        reveal_strlit("false");
    }
    let mut items: Vec<(String, String)> = Vec::new();
    items.push((text("address"), text(pubkey)));
    items.push((text("flag"), text("false")));
    assert("address"@ =~= address_field());
    assert("flag"@ =~= flag_field());
    assert("false"@ =~= unspent());
    assert(writes_view(items@)[0] == (address_field(), pubkey@));
    assert(writes_view(items@)[1] == (flag_field(), unspent()));
    assert(writes_view(items@) =~= fresh_entry(pubkey@));
    items
}

/// The fields read back when a nonce is checked: address, then flag.
pub fn nonce_check_fields() -> (fields: Vec<String>)
    ensures
        fields@.map_values(|f: String| f@) == checked_fields(),
{
    proof {
        reveal_strlit("address");
        reveal_strlit("flag");
    }
    let mut fields: Vec<String> = Vec::new();
    fields.push(text("address"));
    fields.push(text("flag"));
    assert("address"@ =~= address_field());
    assert("flag"@ =~= flag_field());
    assert(fields@.map_values(|f: String| f@)[0] == address_field());
    assert(fields@.map_values(|f: String| f@)[1] == flag_field());
    assert(fields@.map_values(|f: String| f@) =~= checked_fields());
    fields
}

/// Decides whether a read-back nonce entry lets `pubkey` in: exactly two
/// values, both present, the first equal to `pubkey`, the second `"false"`.
pub fn nonce_entry_matches(vals: &Vec<Option<String>>, pubkey: &str) -> (admits: bool)
    ensures
        admits == entry_admits(reply_view(vals@), pubkey@),
{
    proof {
        reveal_strlit("false");
    }
    if vals.len() != 2 {
        return false;
    }
    let ghost r = reply_view(vals@);
    assert(r[0] == match vals@[0] { Some(s) => Some(s@), None => None::<Seq<char>> });
    assert(r[1] == match vals@[1] { Some(s) => Some(s@), None => None::<Seq<char>> });
    match (&vals[0], &vals[1]) {
        (Some(stored_pubkey), Some(flag)) => {
            let owner = text(pubkey);
            let unspent_flag = text("false");
            assert("false"@ =~= unspent());
            *stored_pubkey == owner && *flag == unspent_flag
        },
        _ => false,
    }
}

/// The cache commands that store a fresh nonce: the hash key, the field
/// writes, and the time to live in seconds.
pub struct NonceWrite {
    pub key: String,
    pub fields: Vec<(String, String)>,
    pub ttl_seconds: i64,
}

/// The cache read that checks a nonce: the hash key and the fields read.
pub struct NonceRead {
    pub key: String,
    pub fields: Vec<String>,
}

/// The cache write that spends a nonce: the hash key, field and new value.
pub struct NonceSpend {
    pub key: String,
    pub field: String,
    pub value: String,
}

/// The commands that store `nonce` as issued to `pubkey`: under the nonce's
/// key, the address and an unspent flag, living `NONCE_TTL_SECONDS` seconds.
pub fn nonce_write(nonce: &str, pubkey: &str) -> (w: NonceWrite)
    ensures
        w.key@ == crate::crypto::nonce_key(nonce@),
        writes_view(w.fields@) == fresh_entry(pubkey@),
        w.ttl_seconds == NONCE_TTL_SECONDS,
{
    NonceWrite {
        key: crate::crypto::encode_nonce(nonce),
        fields: nonce_fields(pubkey),
        ttl_seconds: NONCE_TTL_SECONDS,
    }
}

/// The read that checks `nonce`: address and flag under the nonce's key.
pub fn nonce_read(nonce: &str) -> (r: NonceRead)
    ensures
        r.key@ == crate::crypto::nonce_key(nonce@),
        r.fields@.map_values(|f: String| f@) == checked_fields(),
{
    NonceRead { key: crate::crypto::encode_nonce(nonce), fields: nonce_check_fields() }
}

/// The write that spends `nonce`: its flag, under the nonce's key, set to
/// `"true"`.
pub fn nonce_spend(nonce: &str) -> (w: NonceSpend)
    ensures
        w.key@ == crate::crypto::nonce_key(nonce@),
        (w.field@, w.value@) == spend_write(),
{
    proof {
        reveal_strlit("flag");
        reveal_strlit("true");
    }
    let w = NonceSpend { key: crate::crypto::encode_nonce(nonce), field: text("flag"), value: text("true") };
    assert(w.field@ =~= flag_field());
    assert(w.value@ =~= spent());
    w
}

/// The write that stores a fresh nonce issued to `pubkey`.
pub open spec fn store_exchange(nonce: Seq<char>, pubkey: Seq<char>, done: bool) -> CacheExchange {
    CacheExchange::SetFields { key: nonce_key(nonce), writes: fresh_entry(pubkey), done }
}

/// The command that makes a stored nonce expire after `NONCE_TTL_SECONDS`.
pub open spec fn expire_exchange(nonce: Seq<char>, done: bool) -> CacheExchange {
    CacheExchange::Expire { key: nonce_key(nonce), seconds: NONCE_TTL_SECONDS, done }
}

/// The read that checks a nonce, with its reply.
pub open spec fn read_exchange(nonce: Seq<char>, reply: Option<Seq<Option<Seq<char>>>>) -> CacheExchange {
    CacheExchange::GetFields { key: nonce_key(nonce), fields: checked_fields(), reply }
}

/// The write that marks a nonce as spent.
pub open spec fn spend_exchange(nonce: Seq<char>, done: bool) -> CacheExchange {
    CacheExchange::SetField { key: nonce_key(nonce), field: flag_field(), value: spent(), done }
}

/// The exchanges of storing `nonce` for `pubkey` over an open connection, as
/// they came to `res`: the store, then the expiry, each only after the one
/// before was accepted; success exactly when both were, a write error when
/// one was refused (after a refused expiry the entry stays stored, without a
/// lifetime).
pub open spec fn put_exchanges(
    nonce: Seq<char>,
    pubkey: Seq<char>,
    res: Result<(), crate::errors::CacheError>,
    log: Seq<CacheExchange>,
) -> bool {
    match res {
        Ok(()) => log == seq![store_exchange(nonce, pubkey, true), expire_exchange(nonce, true)],
        Err(crate::errors::CacheError::ConnectionError(_)) => false,
        Err(crate::errors::CacheError::WriteError(_)) => log == seq![
            store_exchange(nonce, pubkey, false),
        ] || log == seq![store_exchange(nonce, pubkey, true), expire_exchange(nonce, false)],
    }
}

/// The exchanges are the one read of `nonce`'s address and flag.
pub open spec fn is_nonce_read(nonce: Seq<char>, log: Seq<CacheExchange>) -> bool {
    &&& log.len() == 1
    &&& log[0] matches CacheExchange::GetFields { key, fields, .. }
    &&& key == nonce_key(nonce)
    &&& fields == checked_fields()
}

/// The reply of the first exchange, when it is a read that got one.
pub open spec fn reply_of(log: Seq<CacheExchange>) -> Option<Seq<Option<Seq<char>>>> {
    match log[0] {
        CacheExchange::GetFields { reply, .. } => reply,
        _ => None,
    }
}

/// The nonce read in `log` found an entry that admits `pubkey`.
pub open spec fn nonce_admitted(pubkey: Seq<char>, log: Seq<CacheExchange>) -> bool {
    reply_of(log) matches Some(r) && entry_admits(r, pubkey)
}

/// The exchanges of checking `nonce` for `pubkey` over an open connection, as
/// they came to `res`: one read of the nonce's address and flag; a failed read
/// is an error, a reply gives whether the entry admits `pubkey`.
pub open spec fn check_exchanges(
    nonce: Seq<char>,
    pubkey: Seq<char>,
    res: Result<bool, RedisError>,
    log: Seq<CacheExchange>,
) -> bool {
    &&& is_nonce_read(nonce, log)
    &&& match reply_of(log) {
        Some(r) => res == Ok::<bool, RedisError>(entry_admits(r, pubkey)),
        None => res is Err,
    }
}

/// Stores a fresh nonce issued to `pubkey`: opens a connection to the cache,
/// writes, under the nonce's key, the address and an unspent flag, then an
/// expiry of `NONCE_TTL_SECONDS`. A failed connection gives `ConnectionError`,
/// a refused write `WriteError` with the cache's error text. Also gives the
/// connection it used, with the exchanges made over it.
pub fn put_nonce_into_cache(nonce: &str, pubkey: &str, client_url: &str) -> (res: (
    Result<(), crate::errors::CacheError>,
    Option<CacheConnection>,
))
    requires
        redis_url_accepted(client_url@),
    ensures
        match res.1 {
            None => res.0 matches Err(crate::errors::CacheError::ConnectionError(_)),
            Some(con) => con.target() == client_url@ && put_exchanges(
                nonce@,
                pubkey@,
                res.0,
                con.exchanges(),
            ),
        },
        res.0 is Ok ==> (res.1 matches Some(con) && con.exchanges().len() == 2
            && con.exchanges()[1] == (CacheExchange::Expire {
            key: nonce_key(nonce@),
            seconds: 60,
            done: true,
        })),
{
    let mut con = match get_redis_connection(client_url) {
        Ok(con) => con,
        Err(e) => return (Err(crate::errors::CacheError::ConnectionError(e)), None),
    };
    let w = nonce_write(nonce, pubkey);
    let stored = con.set_fields(w.key.as_str(), &w.fields);
    assert(con.exchanges() =~= seq![store_exchange(nonce@, pubkey@, stored is Ok)]);
    if let Err(e) = stored {
        let text = redis_error_text(&e);
        return (Err(crate::errors::CacheError::WriteError(text)), Some(con));
    }
    let expiring = con.expire(w.key.as_str(), w.ttl_seconds);
    assert(con.exchanges() =~= seq![
        store_exchange(nonce@, pubkey@, true),
        expire_exchange(nonce@, expiring is Ok),
    ]);
    if let Err(e) = expiring {
        let text = redis_error_text(&e);
        return (Err(crate::errors::CacheError::WriteError(text)), Some(con));
    }
    (Ok(()), Some(con))
}

/// `put_nonce_into_cache` for any URL: `None` when the cache client does not
/// accept the URL (where that call would panic, and no connection is opened),
/// else its outcome.
pub fn put_nonce_into_cache_checked(nonce: &str, pubkey: &str, client_url: &str) -> (res: (
    Option<Result<(), crate::errors::CacheError>>,
    Option<CacheConnection>,
))
    ensures
        res.0 is None <==> !redis_url_accepted(client_url@),
        res.0 is None ==> res.1 is None,
        res.0 matches Some(stored) ==> match res.1 {
            None => stored matches Err(crate::errors::CacheError::ConnectionError(_)),
            Some(con) => con.target() == client_url@ && put_exchanges(
                nonce@,
                pubkey@,
                stored,
                con.exchanges(),
            ),
        },
{
    if cache_url_accepted(client_url) {
        let (stored, con) = put_nonce_into_cache(nonce, pubkey, client_url);
        (Some(stored), con)
    } else {
        (None, None)
    }
}

/// Turns the cache's answer to a nonce read into the check's outcome: cache
/// errors pass through, a reply is judged by `nonce_entry_matches`.
pub fn nonce_check_outcome(reply: Result<Vec<Option<String>>, RedisError>, pubkey: &str) -> (res:
    Result<bool, RedisError>)
    ensures
        match reply {
            Ok(vals) => res == Ok::<bool, RedisError>(
                entry_admits(reply_view(vals@), pubkey@),
            ),
            Err(e) => res == Err::<bool, RedisError>(e),
        },
{
    match reply {
        Ok(vals) => Ok(nonce_entry_matches(&vals, pubkey)),
        Err(e) => Err(e),
    }
}

/// Checks that `nonce` is cached, issued to `pubkey` and not yet spent: opens
/// a connection to the cache, reads the nonce's address and flag and judges
/// the reply with `nonce_check_outcome`. A failed connection is an error.
/// Also gives the connection it used, with the exchanges made over it.
pub fn check_nonce_in_cache(nonce: &str, pubkey: &str, client_url: &str) -> (res: (
    Result<bool, RedisError>,
    Option<CacheConnection>,
))
    requires
        redis_url_accepted(client_url@),
    ensures
        match res.1 {
            None => res.0 is Err,
            Some(con) => con.target() == client_url@ && check_exchanges(
                nonce@,
                pubkey@,
                res.0,
                con.exchanges(),
            ),
        },
{
    let mut con = match get_redis_connection(client_url) {
        Ok(con) => con,
        Err(e) => return (Err(e), None),
    };
    let r = nonce_read(nonce);
    let reply = con.get_fields(r.key.as_str(), &r.fields);
    let ghost read = read_reply(reply);
    let outcome = nonce_check_outcome(reply, pubkey);
    assert(con.exchanges() =~= seq![read_exchange(nonce@, read)]);
    (outcome, Some(con))
}

/// Marks `nonce` as spent: opens a connection to the cache and sets the
/// nonce's flag to `"true"`. A failed connection is an error. Also gives the
/// connection it used, with the exchange made over it.
pub fn reverse_flag(nonce: &str, client_url: &str) -> (res: (
    Result<(), RedisError>,
    Option<CacheConnection>,
))
    requires
        redis_url_accepted(client_url@),
    ensures
        match res.1 {
            None => res.0 is Err,
            Some(con) => con.target() == client_url@ && con.exchanges() == seq![
                spend_exchange(nonce@, res.0 is Ok),
            ],
        },
{
    let mut con = match get_redis_connection(client_url) {
        Ok(con) => con,
        Err(e) => return (Err(e), None),
    };
    let w = nonce_spend(nonce);
    let written = con.set_field(w.key.as_str(), w.field.as_str(), w.value.as_str());
    assert(con.exchanges() =~= seq![spend_exchange(nonce@, written is Ok)]);
    match written {
        Ok(_added) => (Ok(()), Some(con)),
        Err(e) => (Err(e), Some(con)),
    }
}

/// The exchanges made over a connection, or none when it was not opened.
pub open spec fn exchanges_of(con: Option<CacheConnection>) -> Seq<CacheExchange> {
    match con {
        Some(c) => c.exchanges(),
        None => Seq::empty(),
    }
}

/// The field writes to `key` that the cache accepted over the exchanges
/// `history`, in order.
pub open spec fn accepted_writes(history: Seq<CacheExchange>, key: Seq<char>) -> Seq<
    (Seq<char>, Seq<char>),
>
    decreases history.len(),
{
    if history.len() == 0 {
        Seq::empty()
    } else {
        let before = accepted_writes(history.drop_last(), key);
        match history.last() {
            CacheExchange::SetFields { key: k, writes, done } => if k == key && done {
                before + writes
            } else {
                before
            },
            CacheExchange::SetField { key: k, field, value, done } => if k == key && done {
                before.push((field, value))
            } else {
                before
            },
            _ => before,
        }
    }
}

/// The cache behaved as a store of hashes over `history`: every read that got
/// a reply was answered with what the writes accepted before it left under
/// its key (as long as the entry lives, which the model does not track).
pub open spec fn answers_from_writes(history: Seq<CacheExchange>) -> bool {
    forall|i: int|
        0 <= i < history.len() ==> match #[trigger] history[i] {
            CacheExchange::GetFields { key, fields, reply: Some(r) } => r == hash_read(
                accepted_writes(history.take(i), key),
                fields,
            ),
            _ => true,
        }
}

/// Accepted writes over two runs of exchanges are those of the first, then
/// those of the second.
pub proof fn lemma_accepted_writes_concat(h1: Seq<CacheExchange>, h2: Seq<CacheExchange>, key: Seq<char>)
    ensures
        accepted_writes(h1 + h2, key) == accepted_writes(h1, key) + accepted_writes(h2, key),
    decreases h2.len(),
{
    if h2.len() == 0 {
        assert(h1 + h2 =~= h1);
        assert(accepted_writes(h1, key) + accepted_writes(h2, key) =~= accepted_writes(h1, key));
    } else {
        lemma_accepted_writes_concat(h1, h2.drop_last(), key);
        assert((h1 + h2).drop_last() =~= h1 + h2.drop_last());
        assert((h1 + h2).last() == h2.last());
        let a = accepted_writes(h1, key);
        let b = accepted_writes(h2.drop_last(), key);
        match h2.last() {
            CacheExchange::SetFields { key: k, writes, done } => {
                assert(a + b + writes =~= a + (b + writes));
            },
            CacheExchange::SetField { key: k, field, value, done } => {
                assert((a + b).push((field, value)) =~= a + b.push((field, value)));
            },
            _ => {},
        }
    }
}

/// A stored nonce's entry holds the address and the unspent flag.
pub proof fn lemma_stored_writes(nonce: Seq<char>, pubkey: Seq<char>, log: Seq<CacheExchange>)
    requires
        put_exchanges(nonce, pubkey, Ok(()), log),
    ensures
        accepted_writes(log, nonce_key(nonce)) == fresh_entry(pubkey),
{
    reveal_with_fuel(accepted_writes, 3);
    assert(log.drop_last() =~= seq![store_exchange(nonce, pubkey, true)]);
    assert(log.drop_last().drop_last() =~= Seq::<CacheExchange>::empty());
    assert(Seq::<(Seq<char>, Seq<char>)>::empty() + fresh_entry(pubkey) =~= fresh_entry(pubkey));
}

/// A successful spend writes the spent flag under the nonce's key.
pub proof fn lemma_spent_writes(nonce: Seq<char>, log: Seq<CacheExchange>)
    requires
        log == seq![spend_exchange(nonce, true)],
    ensures
        accepted_writes(log, nonce_key(nonce)) == seq![spend_write()],
{
    reveal_with_fuel(accepted_writes, 2);
    assert(log.drop_last() =~= Seq::<CacheExchange>::empty());
    assert(Seq::<(Seq<char>, Seq<char>)>::empty().push(spend_write()) =~= seq![spend_write()]);
}

/// A nonce check writes nothing.
pub proof fn lemma_check_writes_nothing(nonce: Seq<char>, log: Seq<CacheExchange>, key: Seq<char>)
    requires
        is_nonce_read(nonce, log),
    ensures
        accepted_writes(log, key) == Seq::<(Seq<char>, Seq<char>)>::empty(),
{
    reveal_with_fuel(accepted_writes, 2);
    assert(log.drop_last() =~= Seq::<CacheExchange>::empty());
}

/// What the cache answered a nonce read that follows the exchanges `before`
/// on a cache that answers reads from the writes it accepted.
pub proof fn lemma_read_after(
    before: Seq<CacheExchange>,
    read: Seq<CacheExchange>,
    after: Seq<CacheExchange>,
    nonce: Seq<char>,
    r: Seq<Option<Seq<char>>>,
)
    requires
        answers_from_writes(before + read + after),
        is_nonce_read(nonce, read),
        reply_of(read) == Some(r),
    ensures
        r == hash_read(accepted_writes(before, nonce_key(nonce)), checked_fields()),
{
    let h = before + read + after;
    let i: int = before.len() as int;
    assert(h[i] == read[0]);
    assert(h.take(i) =~= before);
}

/// No write that `log` got accepted under `key` touches `field`.
pub open spec fn leaves_field(log: Seq<CacheExchange>, key: Seq<char>, field: Seq<char>) -> bool {
    forall|i: int|
        0 <= i < accepted_writes(log, key).len() ==> (#[trigger] accepted_writes(log, key)[i]).0
            != field
}

/// A field that later writes set reads as they left it, whatever came before.
pub proof fn lemma_later_writes_decide(
    w: Seq<(Seq<char>, Seq<char>)>,
    v: Seq<(Seq<char>, Seq<char>)>,
    field: Seq<char>,
)
    requires
        hash_value(v, field) is Some,
    ensures
        hash_value(w + v, field) == hash_value(v, field),
    decreases v.len(),
{
    assert((w + v).last() == v.last());
    if v.last().0 != field {
        assert((w + v).drop_last() =~= w + v.drop_last());
        lemma_later_writes_decide(w, v.drop_last(), field);
    }
}

/// Later writes that leave a field alone do not change how it reads.
pub proof fn lemma_untouched_field(
    w: Seq<(Seq<char>, Seq<char>)>,
    v: Seq<(Seq<char>, Seq<char>)>,
    field: Seq<char>,
)
    requires
        forall|i: int| 0 <= i < v.len() ==> (#[trigger] v[i]).0 != field,
    ensures
        hash_value(w + v, field) == hash_value(w, field),
    decreases v.len(),
{
    if v.len() == 0 {
        assert(w + v =~= w);
    } else {
        assert((w + v).last() == v.last());
        assert(v.last() == v[v.len() - 1]);
        assert((w + v).drop_last() =~= w + v.drop_last());
        assert forall|i: int| 0 <= i < v.drop_last().len() implies (#[trigger] v.drop_last()[i]).0
            != field by {
            assert(v.drop_last()[i] == v[i]);
        }
        lemma_untouched_field(w, v.drop_last(), field);
    }
}

/// After a nonce was stored for `owner`, a check of it for `who` finds it
/// admitting exactly when `who` is `owner`, whatever the cache held before the
/// store, as long as nothing in between wrote the nonce's entry and the cache
/// answered reads from the writes it accepted.
pub proof fn law_stored_nonce_admits_its_owner(
    nonce: Seq<char>,
    owner: Seq<char>,
    who: Seq<char>,
    before: Seq<CacheExchange>,
    stored: Seq<CacheExchange>,
    between: Seq<CacheExchange>,
    res: Result<bool, RedisError>,
    checked: Seq<CacheExchange>,
)
    requires
        put_exchanges(nonce, owner, Ok(()), stored),
        accepted_writes(between, nonce_key(nonce)).len() == 0,
        check_exchanges(nonce, who, res, checked),
        reply_of(checked) is Some,
        answers_from_writes(before + stored + between + checked),
    ensures
        res == Ok::<bool, RedisError>(who == owner),
{
    let key = nonce_key(nonce);
    let r = reply_of(checked)->0;
    assert(before + stored + between + checked =~= (before + stored + between) + checked + Seq::<
        CacheExchange,
    >::empty());
    lemma_read_after(before + stored + between, checked, Seq::empty(), nonce, r);
    lemma_entry_after_store(nonce, owner, before, stored, between);
    law_fresh_nonce_admits_owner(owner);
    if who != owner {
        law_fresh_nonce_refuses_other_keys(owner, who);
    }
}

/// What a nonce entry reads as after it was stored for `owner` and nothing
/// wrote it since: exactly what a freshly stored entry reads as.
pub proof fn lemma_entry_after_store(
    nonce: Seq<char>,
    owner: Seq<char>,
    before: Seq<CacheExchange>,
    stored: Seq<CacheExchange>,
    between: Seq<CacheExchange>,
)
    requires
        put_exchanges(nonce, owner, Ok(()), stored),
        accepted_writes(between, nonce_key(nonce)).len() == 0,
    ensures
        hash_read(accepted_writes(before + stored + between, nonce_key(nonce)), checked_fields())
            == hash_read(fresh_entry(owner), checked_fields()),
{
    let key = nonce_key(nonce);
    lemma_accepted_writes_concat(before, stored, key);
    lemma_accepted_writes_concat(before + stored, between, key);
    lemma_stored_writes(nonce, owner, stored);
    let w = accepted_writes(before, key);
    assert(accepted_writes(before + stored + between, key) =~= w + fresh_entry(owner));
    lemma_fields_distinct();
    law_fresh_nonce_admits_owner(owner);
    assert(fresh_entry(owner).drop_last() =~= seq![(address_field(), owner)]);
    assert(hash_value(fresh_entry(owner), address_field()) is Some);
    assert(hash_value(fresh_entry(owner), flag_field()) is Some);
    lemma_later_writes_decide(w, fresh_entry(owner), address_field());
    lemma_later_writes_decide(w, fresh_entry(owner), flag_field());
    assert(hash_read(w + fresh_entry(owner), checked_fields()) =~= hash_read(
        fresh_entry(owner),
        checked_fields(),
    ));
}

/// Once a nonce was spent, a check of it admits no public key, whatever the
/// cache held before, as long as nothing since wrote the nonce's flag and the
/// cache answered reads from the writes it accepted.
pub proof fn law_spent_nonce_is_refused(
    nonce: Seq<char>,
    who: Seq<char>,
    before: Seq<CacheExchange>,
    spent_log: Seq<CacheExchange>,
    between: Seq<CacheExchange>,
    res: Result<bool, RedisError>,
    checked: Seq<CacheExchange>,
)
    requires
        spent_log == seq![spend_exchange(nonce, true)],
        leaves_field(between, nonce_key(nonce), flag_field()),
        check_exchanges(nonce, who, res, checked),
        answers_from_writes(before + spent_log + between + checked),
    ensures
        res != Ok::<bool, RedisError>(true),
{
    if reply_of(checked) is Some {
        let r = reply_of(checked)->0;
        assert(before + spent_log + between + checked =~= (before + spent_log + between)
            + checked + Seq::<CacheExchange>::empty());
        lemma_read_after(before + spent_log + between, checked, Seq::empty(), nonce, r);
        lemma_flag_after_spend(nonce, before, spent_log, between);
        lemma_fields_distinct();
    }
}

/// After a spend, and writes since that leave the flag alone, the nonce's
/// flag reads as spent.
pub proof fn lemma_flag_after_spend(
    nonce: Seq<char>,
    before: Seq<CacheExchange>,
    spent_log: Seq<CacheExchange>,
    between: Seq<CacheExchange>,
)
    requires
        spent_log == seq![spend_exchange(nonce, true)],
        leaves_field(between, nonce_key(nonce), flag_field()),
    ensures
        hash_value(accepted_writes(before + spent_log + between, nonce_key(nonce)), flag_field())
            == Some(spent()),
{
    let key = nonce_key(nonce);
    lemma_accepted_writes_concat(before, spent_log, key);
    lemma_accepted_writes_concat(before + spent_log, between, key);
    lemma_spent_writes(nonce, spent_log);
    let w = accepted_writes(before, key) + seq![spend_write()];
    lemma_untouched_field(w, accepted_writes(between, key), flag_field());
    assert(w.last() == spend_write());
}

/// A second spend of a nonce changes nothing: after it, every field of the
/// nonce's entry reads as after the first.
pub proof fn law_second_spend_changes_nothing(
    nonce: Seq<char>,
    before: Seq<CacheExchange>,
    first: Seq<CacheExchange>,
    second: Seq<CacheExchange>,
    field: Seq<char>,
)
    requires
        first == seq![spend_exchange(nonce, true)],
        second.len() == 1,
        second[0] matches CacheExchange::SetField { key, field: f, value, .. } && key == nonce_key(
            nonce,
        ) && f == flag_field() && value == spent(),
    ensures
        hash_value(accepted_writes(before + first + second, nonce_key(nonce)), field) == hash_value(
            accepted_writes(before + first, nonce_key(nonce)),
            field,
        ),
{
    let key = nonce_key(nonce);
    reveal_with_fuel(accepted_writes, 2);
    lemma_accepted_writes_concat(before, first, key);
    lemma_spent_writes(nonce, first);
    lemma_accepted_writes_concat(before + first, second, key);
    assert(second.drop_last() =~= Seq::<CacheExchange>::empty());
    let w = accepted_writes(before, key);
    assert(w + seq![spend_write()] =~= w.push(spend_write()));
    law_spend_is_idempotent(w, field);
    if accepted_writes(second, key).len() != 0 {
        assert(accepted_writes(second, key) =~= seq![spend_write()]);
        assert(w.push(spend_write()) + seq![spend_write()] =~= w.push(spend_write()).push(
            spend_write(),
        ));
    } else {
        assert(w.push(spend_write()) + accepted_writes(second, key) =~= w.push(spend_write()));
    }
}

/// The entry's two field names differ, and so do its two flag values.
pub proof fn lemma_fields_distinct_pub()
    ensures
        address_field() != flag_field(),
        unspent() != spent(),
{
    lemma_fields_distinct();
}

proof fn lemma_fields_distinct()
    ensures
        address_field() != flag_field(),
        unspent() != spent(),
{
    assert(address_field().len() != flag_field().len());
    assert(unspent().len() != spent().len());
}

/// A freshly stored nonce, read back, lets in the public key it was issued to.
pub proof fn law_fresh_nonce_admits_owner(pubkey: Seq<char>)
    ensures
        entry_admits(hash_read(fresh_entry(pubkey), checked_fields()), pubkey),
{
    lemma_fields_distinct();
    let writes = fresh_entry(pubkey);
    assert(writes.drop_last() =~= seq![(address_field(), pubkey)]);
    assert(hash_value(writes, flag_field()) == Some(unspent()));
    assert(hash_value(writes, address_field()) == hash_value(writes.drop_last(), address_field()));
    assert(hash_value(writes.drop_last(), address_field()) == Some(pubkey));
}

/// A freshly stored nonce lets in no public key but the one it was issued to.
pub proof fn law_fresh_nonce_refuses_other_keys(pubkey: Seq<char>, other: Seq<char>)
    requires
        other != pubkey,
    ensures
        !entry_admits(hash_read(fresh_entry(pubkey), checked_fields()), other),
{
    law_fresh_nonce_admits_owner(pubkey);
}

/// Once a nonce has been marked as spent, it lets no public key in: a nonce
/// serves one authentication only.
pub proof fn law_spent_nonce_admits_nobody(pubkey: Seq<char>, who: Seq<char>)
    ensures
        !entry_admits(hash_read(fresh_entry(pubkey).push(spend_write()), checked_fields()), who),
{
    lemma_fields_distinct();
    let writes = fresh_entry(pubkey).push(spend_write());
    assert(hash_value(writes, flag_field()) == Some(spent()));
    assert(hash_read(writes, checked_fields())[1] == Some(spent()));
}

/// Spending a nonce twice leaves its entry as spending it once: every field
/// reads the same.
pub proof fn law_spend_is_idempotent(writes: Seq<(Seq<char>, Seq<char>)>, field: Seq<char>)
    ensures
        hash_value(writes.push(spend_write()).push(spend_write()), field) == hash_value(
            writes.push(spend_write()),
            field,
        ),
{
    assert(writes.push(spend_write()).push(spend_write()).drop_last() =~= writes.push(spend_write()));
    assert(writes.push(spend_write()).drop_last() =~= writes);
}

/// A stored nonce lives sixty seconds: a successful store writes the nonce's
/// entry under its key, issued to the key it names and unspent, and then sets
/// that key to expire sixty seconds later.
pub proof fn law_stored_nonce_lives_sixty_seconds(
    nonce: Seq<char>,
    pubkey: Seq<char>,
    log: Seq<CacheExchange>,
)
    requires
        put_exchanges(nonce, pubkey, Ok(()), log),
    ensures
        log.len() == 2,
        log[0] == (CacheExchange::SetFields {
            key: nonce_key(nonce),
            writes: seq![
                (seq!['a', 'd', 'd', 'r', 'e', 's', 's'], pubkey),
                (seq!['f', 'l', 'a', 'g'], seq!['f', 'a', 'l', 's', 'e']),
            ],
            done: true,
        }),
        log[1] == (CacheExchange::Expire { key: nonce_key(nonce), seconds: 60, done: true }),
{
}

} // verus!
