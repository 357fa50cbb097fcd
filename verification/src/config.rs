use vstd::prelude::*;

verus! {

/// Where the service finds its database, its event stream and its cache.
#[derive(Debug, Clone)]
pub struct ServiceConfig {
    pub database_url: String,
    pub kafka_broker: String,
    pub redis_url: String,
}

/// Why the service cannot be configured.
#[derive(Debug, Clone, Copy, PartialEq, Eq, Structural)]
pub enum ConfigError {
    /// The `DATABASE_URL` setting is absent.
    MissingDatabaseUrl,
}

/// The broker used when `KAFKA_BROKER` is not set.
pub open spec fn default_kafka_broker() -> Seq<char> {
    "localhost:9092"@
}

/// The cache used when `REDIS_URL` is not set.
pub open spec fn default_redis_url() -> Seq<char> {
    "redis://127.0.0.1:6379"@
}

/// The message given when `DATABASE_URL` is absent.
pub open spec fn missing_database_text() -> Seq<char> {
    "DATABASE_URL introuvable."@
}

/// The text of an optional setting, or `default` when it is absent.
pub open spec fn setting_or(value: Option<String>, default: Seq<char>) -> Seq<char> {
    match value {
        Some(v) => v@,
        None => default,
    }
}

impl ConfigError {
    /// The message that explains this error.
    pub fn message(&self) -> (m: String)
        ensures
            m@ == missing_database_text(),
    {
        "DATABASE_URL introuvable.".to_owned()
    }
}

impl ServiceConfig {
    /// Builds the configuration from the values of the settings
    /// `DATABASE_URL`, `KAFKA_BROKER` and `REDIS_URL` (`None` when unset).
    /// The database URL is required; the broker and the cache fall back to
    /// `localhost:9092` and `redis://127.0.0.1:6379`.
    pub fn from_settings(
        database_url: Option<String>,
        kafka_broker: Option<String>,
        redis_url: Option<String>,
    ) -> (r: Result<ServiceConfig, ConfigError>)
        ensures
            database_url is None <==> r is Err,
            r matches Err(e) ==> e == ConfigError::MissingDatabaseUrl,
            r matches Ok(c) ==> {
                &&& database_url matches Some(d) && c.database_url@ == d@
                &&& c.kafka_broker@ == setting_or(kafka_broker, default_kafka_broker())
                &&& c.redis_url@ == setting_or(redis_url, default_redis_url())
            },
    {
        let database_url = match database_url {
            Some(d) => d,
            None => return Err(ConfigError::MissingDatabaseUrl),
        };
        let kafka_broker = match kafka_broker {
            Some(k) => k,
            None => "localhost:9092".to_owned(),
        };
        let redis_url = match redis_url {
            Some(u) => u,
            None => "redis://127.0.0.1:6379".to_owned(),
        };
        Ok(ServiceConfig { database_url, kafka_broker, redis_url })
    }
}

/// The stream topic that carries security events.
pub open spec fn event_topic_text() -> Seq<char> {
    "siem-events"@
}

/// The stream topic that carries security events.
pub fn event_topic() -> (t: &'static str)
    ensures
        t@ == event_topic_text(),
{
    "siem-events"
}

/// The address the HTTP server listens on.
pub fn listen_address() -> (a: &'static str)
    ensures
        a@ == "0.0.0.0:3000"@,
{
    "0.0.0.0:3000"
}

} // verus!
