use vstd::prelude::*;

verus! {

/// Declares the Redis client handle.
#[verifier::external_type_specification]
#[verifier::external_body]
pub struct ExRedisClient(::redis::Client);

/// Declares the Redis error type.
#[verifier::external_type_specification]
#[verifier::external_body]
pub struct ExRedisError(::redis::RedisError);

/// Whether `redis::Client::open` accepts the URL `url`: it parses the URL,
/// requires the scheme `redis`, `unix` or `redis+unix` (`rediss` is refused
/// in this build, which enables no TLS feature), and checks the host (or
/// socket path), database number and protocol it names. It makes no
/// connection.
pub uninterp spec fn redis_url_accepted(url: Seq<char>) -> bool;

/// The client that `redis::Client::open` builds from the URL `url` when it
/// accepts it: a client holding the connection settings parsed from `url`
/// and nothing else.
pub uninterp spec fn redis_client_for(url: Seq<char>) -> ::redis::Client;

/// Calls `redis::Client::open` on a URL given as text.
/// Trusted: the call succeeds exactly when `redis_url_accepted` holds of the
/// URL, and the client it returns is `redis_client_for` of the URL: it only
/// parses the URL into connection settings, with no I/O.
#[verifier::external_body]
fn open_redis_client(url: &str) -> (res: Result<::redis::Client, ::redis::RedisError>)
    ensures
        res.is_ok() == redis_url_accepted(url@),
        res matches Ok(c) ==> c == redis_client_for(url@),
{
    ::redis::Client::open(url)
}

/// Gives Verus the signature of `redis::Client::clone` (derived in the
/// crate: it copies the parsed connection settings). Nothing is stated of the
/// copy.
pub assume_specification[ <::redis::Client as Clone>::clone ](c: &::redis::Client) -> ::redis::Client;

/// A handle on the Redis cache, used for sessions and statistics.
/// Building it only checks the URL; connections are made when it is used.
#[derive(Clone)]
pub struct RedisCache {
    client: ::redis::Client,
}

impl RedisCache {
    /// The client handle held by the cache.
    pub closed spec fn spec_client(&self) -> ::redis::Client {
        self.client
    }

    /// Builds a cache handle for `redis_url`; fails exactly when the Redis
    /// client refuses the URL, and otherwise holds the client opened on it.
    pub fn new(redis_url: &str) -> (res: Result<RedisCache, ::redis::RedisError>)
        ensures
            res.is_ok() == redis_url_accepted(redis_url@),
            res matches Ok(r) ==> r.spec_client() == redis_client_for(redis_url@),
    {
        let client = open_redis_client(redis_url)?;
        Ok(RedisCache { client })
    }

    /// The client that the cache connects through.
    pub fn client(&self) -> (c: &::redis::Client)
        ensures
            *c == self.spec_client(),
    {
        &self.client
    }
}

} // verus!
