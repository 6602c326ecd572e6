use vstd::prelude::*;

use crate::config::CacheConfig;
use crate::error::ApiError;

verus! {

/// A redis client: the parsed connection information of one server; opaque here.
#[verifier::external_type_specification]
#[verifier::external_body]
pub struct ExRedisClient(redis::Client);

/// Whether `redis::Client::open` accepts the URL `url`.
pub uninterp spec fn redis_accepts_url(url: Seq<char>) -> bool;

/// A client that `redis::Client::open` gave, with the URL it was opened from.
pub struct OpenedClient {
    client: redis::Client,
    url: Ghost<Seq<char>>,
}

impl OpenedClient {
    /// The URL the client was opened from.
    pub closed spec fn url(&self) -> Seq<char> {
        self.url@
    }
}

/// `redis::Client::open(url)`: parses the URL into connection information
/// without connecting.
///
/// Claimed: it succeeds exactly on the URLs that it accepts, which depends on
/// the URL alone (a parse with the `url` crate and a check of the scheme), and
/// the client it gives is kept with the URL it was opened from. Which URLs are
/// accepted is left unsaid.
#[verifier::external_body]
fn open_client(url: &str) -> (r: Result<OpenedClient, redis::RedisError>)
    ensures
        r is Ok <==> redis_accepts_url(url@),
        r matches Ok(o) ==> o.url() == url@,
{
    let client = redis::Client::open(url)?;
    Ok(OpenedClient { client, url: Ghost(url@) })
}

/// The cache: a redis client for the configured server.
pub struct Cache {
    client: redis::Client,
    source: Ghost<Option<Seq<char>>>,
}

impl Cache {
    /// The client that the cache holds.
    pub closed spec fn client(&self) -> redis::Client {
        self.client
    }

    /// The URL the cache's client was opened from, where the cache opened it.
    pub closed spec fn source(&self) -> Option<Seq<char>> {
        self.source@
    }

    /// Builds the cache from the outcome of opening a client: a client is kept,
    /// an error becomes `ApiError::RedisError`.
    pub fn from_open_result(opened: Result<redis::Client, redis::RedisError>) -> (r: Result<
        Cache,
        ApiError,
    >)
        ensures
            r is Ok <==> opened is Ok,
            opened is Ok ==> r->Ok_0.client() == opened->Ok_0,
            opened is Err ==> r == Err::<Cache, ApiError>(ApiError::RedisError(opened->Err_0)),
    {
        match opened {
            Ok(client) => Ok(Cache { client, source: Ghost(None) }),
            Err(e) => Err(ApiError::from(e)),
        }
    }

    /// Builds the cache from a client that this cache opened itself, keeping
    /// the URL it came from; an error becomes `ApiError::RedisError`.
    fn from_opened(opened: Result<OpenedClient, redis::RedisError>) -> (r: Result<Cache, ApiError>)
        ensures
            r is Ok <==> opened is Ok,
            opened matches Ok(o) ==> r->Ok_0.source() == Some(o.url()),
            opened matches Err(e) ==> r == Err::<Cache, ApiError>(ApiError::RedisError(e)),
    {
        match opened {
            Ok(o) => Ok(Cache { client: o.client, source: Ghost(Some(o.url@)) }),
            Err(e) => Err(ApiError::from(e)),
        }
    }

    /// Opens a client for `redis://:{password}@{host}:{port}/`: the cache's
    /// client is the one opened from that URL.
    pub fn new(cfg: CacheConfig) -> (r: Result<Cache, ApiError>)
        ensures
            r is Ok <==> redis_accepts_url(cfg.url_spec()),
            r matches Ok(c) ==> c.source() == Some(cfg.url_spec()),
            r is Err ==> r->Err_0 is RedisError,
    {
        let url = cfg.url();
        let opened = open_client(url.as_str());
        Cache::from_opened(opened)
    }

    /// The client.
    pub fn get_client(&self) -> (r: &redis::Client)
        ensures
            *r == self.client(),
    {
        &self.client
    }
}

} // verus!
