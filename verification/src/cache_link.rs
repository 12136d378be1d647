//! The link to the cache server: a connection that records every exchange
//! made over it. The record lives in private fields, so code outside this
//! module learns of a connection's exchanges only through the methods that
//! make them.
use vstd::prelude::*;

use redis::{Client, Commands, Connection, RedisError};

use crate::cache::{reply_view, writes_view};

verus! {

#[verifier::external_type_specification]
#[verifier::external_body]
pub struct ExRedisClient(redis::Client);

#[verifier::external_type_specification]
#[verifier::external_body]
pub struct ExRedisConnection(redis::Connection);

/// Whether `redis::Client::open` accepts `url`: a URL with scheme `redis`,
/// `rediss`, `redis+unix` or `unix` that the client can turn into connection
/// settings.
pub uninterp spec fn redis_url_accepted(url: Seq<char>) -> bool;

/// Trusted: `redis::Client::open(url)`. It only parses the URL, so whether it
/// succeeds is a function of the text, named `redis_url_accepted`.
#[verifier::external_body]
fn open_client(url: &str) -> (res: Result<Client, RedisError>)
    ensures
        res is Ok <==> redis_url_accepted(url@),
{
    Client::open(url)
}

/// Trusted: `Client::get_connection`, which opens a network connection.
/// Nothing is stated of the outcome.
#[verifier::external_body]
fn connect(client: &Client) -> Result<Connection, RedisError> {
    client.get_connection()
}

/// Trusted: `Commands::hset_multiple` (`HMSET key f1 v1 f2 v2 ...`). Nothing is
/// stated of the server's answer.
#[verifier::external_body]
fn hash_set_fields(con: &mut Connection, key: &str, items: &Vec<(String, String)>) -> Result<
    (),
    RedisError,
> {
    con.hset_multiple::<_, _, _, ()>(key, items.as_slice())
}

/// Trusted: `Commands::expire` (`EXPIRE key seconds`). Nothing is stated of the
/// server's answer.
#[verifier::external_body]
fn set_expiry(con: &mut Connection, key: &str, seconds: i64) -> Result<(), RedisError> {
    con.expire::<_, ()>(key, seconds)
}

/// Trusted: `Commands::hget` with several fields (`HMGET key f1 f2 ...`).
/// Nothing is stated of the server's answer.
#[verifier::external_body]
fn hash_get_fields(con: &mut Connection, key: &str, fields: &Vec<String>) -> Result<
    Vec<Option<String>>,
    RedisError,
> {
    con.hget(key, fields.as_slice())
}

/// Trusted: `Commands::hset` (`HSET key field value`), whose reply is the
/// number of fields added. Nothing is stated of the server's answer.
#[verifier::external_body]
fn hash_set_field(con: &mut Connection, key: &str, field: &str, value: &str) -> Result<
    usize,
    RedisError,
> {
    con.hset(key, field, value)
}

/// Whether `client_url` is a URL the cache client accepts.
pub fn cache_url_accepted(client_url: &str) -> (ok: bool)
    ensures
        ok == redis_url_accepted(client_url@),
{
    open_client(client_url).is_ok()
}

/// One command sent to the cache, with what came of it.
pub enum CacheExchange {
    /// `HMSET key f1 v1 f2 v2 ...`; `done` when the server accepted it.
    SetFields { key: Seq<char>, writes: Seq<(Seq<char>, Seq<char>)>, done: bool },
    /// `EXPIRE key seconds`; `done` when the server accepted it.
    Expire { key: Seq<char>, seconds: i64, done: bool },
    /// `HMGET key f1 f2 ...`; the values read, or `None` when the read failed.
    GetFields { key: Seq<char>, fields: Seq<Seq<char>>, reply: Option<Seq<Option<Seq<char>>>> },
    /// `HSET key field value`; `done` when the server accepted it.
    SetField { key: Seq<char>, field: Seq<char>, value: Seq<char>, done: bool },
}

/// What a multi-field read gave, as plain text: the values, or `None` when
/// the read failed.
pub open spec fn read_reply(res: Result<Vec<Option<String>>, RedisError>) -> Option<
    Seq<Option<Seq<char>>>,
> {
    match res {
        Ok(vals) => Some(reply_view(vals@)),
        Err(_) => None,
    }
}

/// An open connection to the cache. It keeps, out of reach of other modules,
/// the URL it was opened to and the exchanges made over it so far: only the
/// methods below extend that record, and each of them makes the command it
/// records.
pub struct CacheConnection {
    link: Connection,
    url: Ghost<Seq<char>>,
    sent: Ghost<Seq<CacheExchange>>,
}

impl CacheConnection {
    /// The URL of the cache this connection was opened to.
    pub closed spec fn target(&self) -> Seq<char> {
        self.url@
    }

    /// The exchanges made over this connection so far, in order.
    pub closed spec fn exchanges(&self) -> Seq<CacheExchange> {
        self.sent@
    }

    /// `HMSET key f1 v1 f2 v2 ...`: writes the fields of the hash at `key`.
    pub fn set_fields(&mut self, key: &str, items: &Vec<(String, String)>) -> (res: Result<(), RedisError>)
        ensures
            final(self).target() == old(self).target(),
            final(self).exchanges() == old(self).exchanges().push(
                CacheExchange::SetFields { key: key@, writes: writes_view(items@), done: res is Ok },
            ),
    {
        let res = hash_set_fields(&mut self.link, key, items);
        self.sent = Ghost(
            self.sent@.push(
                CacheExchange::SetFields { key: key@, writes: writes_view(items@), done: res is Ok },
            ),
        );
        res
    }

    /// `EXPIRE key seconds`: makes `key` expire after `seconds`.
    pub fn expire(&mut self, key: &str, seconds: i64) -> (res: Result<(), RedisError>)
        ensures
            final(self).target() == old(self).target(),
            final(self).exchanges() == old(self).exchanges().push(
                CacheExchange::Expire { key: key@, seconds, done: res is Ok },
            ),
    {
        let res = set_expiry(&mut self.link, key, seconds);
        self.sent = Ghost(self.sent@.push(CacheExchange::Expire { key: key@, seconds, done: res is Ok }));
        res
    }

    /// `HMGET key f1 f2 ...`: reads fields of the hash at `key`.
    pub fn get_fields(&mut self, key: &str, fields: &Vec<String>) -> (res: Result<
        Vec<Option<String>>,
        RedisError,
    >)
        ensures
            final(self).target() == old(self).target(),
            final(self).exchanges() == old(self).exchanges().push(
                CacheExchange::GetFields {
                    key: key@,
                    fields: fields@.map_values(|f: String| f@),
                    reply: read_reply(res),
                },
            ),
    {
        let res = hash_get_fields(&mut self.link, key, fields);
        self.sent = Ghost(
            self.sent@.push(
                CacheExchange::GetFields {
                    key: key@,
                    fields: fields@.map_values(|f: String| f@),
                    reply: read_reply(res),
                },
            ),
        );
        res
    }

    /// `HSET key field value`: writes one field of the hash at `key`; the
    /// reply is the number of fields added.
    pub fn set_field(&mut self, key: &str, field: &str, value: &str) -> (res: Result<usize, RedisError>)
        ensures
            final(self).target() == old(self).target(),
            final(self).exchanges() == old(self).exchanges().push(
                CacheExchange::SetField { key: key@, field: field@, value: value@, done: res is Ok },
            ),
    {
        let res = hash_set_field(&mut self.link, key, field, value);
        self.sent = Ghost(
            self.sent@.push(
                CacheExchange::SetField { key: key@, field: field@, value: value@, done: res is Ok },
            ),
        );
        res
    }
}

/// Opens a connection to the cache at `client_url`. Opening reads and writes
/// no key: the new connection has made no exchange.
pub fn get_redis_connection(client_url: &str) -> (res: Result<CacheConnection, RedisError>)
    requires
        redis_url_accepted(client_url@),
    ensures
        res matches Ok(con) ==> con.target() == client_url@ && con.exchanges() == Seq::<
            CacheExchange,
        >::empty(),
{
    let client = open_client(client_url)?;
    let link = connect(&client)?;
    Ok(CacheConnection { link, url: Ghost(client_url@), sent: Ghost(Seq::empty()) })
}

} // verus!
