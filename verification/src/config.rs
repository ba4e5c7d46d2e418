//! The gateway's settings and their defaults.
use vstd::prelude::*;
use vstd::string::*;
use crate::text::copy_str;

verus! {

broadcast use vstd::string::group_string_axioms;

/// Where conversations are stored.
#[derive(Debug, Clone, Copy, PartialEq, Eq, Structural)]
pub enum StorageBackend {
    Sqlite,
    Postgres,
}

/// Which task queue is used.
#[derive(Debug, Clone, Copy, PartialEq, Eq, Structural)]
pub enum QueueBackend {
    InMemory,
    RabbitMQ,
}

/// The gateway's settings.
#[derive(Debug)]
pub struct Config {
    pub port: u16,
    pub database_url: String,
    pub storage_backend: StorageBackend,
    pub encryption_key: Option<String>,
    pub queue_backend: QueueBackend,
    pub redis_url: String,
    pub jwt_secret: String,
    pub rabbitmq_url: String,
    pub ollama_url: String,
    pub homelab_url: String,
    pub homelab_jwt: String,
    pub rate_limit: u32,
    pub rate_limit_window: u64,
    pub log_level: String,
}

/// The port served when none is set.
pub fn default_port() -> (p: u16)
    ensures
        p == 8080,
{
    8080
}

/// The database used when none is set.
pub fn default_database_url() -> (s: String)
    ensures
        s@ == "sqlite:ai_gateway.db"@,
{
    copy_str("sqlite:ai_gateway.db")
}

/// The storage backend used when none is set.
pub fn default_storage_backend() -> (b: StorageBackend)
    ensures
        b == StorageBackend::Sqlite,
{
    StorageBackend::Sqlite
}

/// The queue backend used when none is set.
pub fn default_queue_backend() -> (b: QueueBackend)
    ensures
        b == QueueBackend::InMemory,
{
    QueueBackend::InMemory
}

/// The value of a text setting that is not set: empty.
pub fn default_string() -> (s: String)
    ensures
        s@ == Seq::<char>::empty(),
{
    String::new()
}

/// The log level used when none is set.
pub fn default_log_level() -> (s: String)
    ensures
        s@ == "info"@,
{
    copy_str("info")
}

/// The number of requests allowed per window when none is set.
pub fn default_rate_limit() -> (n: u32)
    ensures
        n == 100,
{
    100
}

/// The rate-limit window, in seconds, when none is set.
pub fn default_rate_limit_window() -> (n: u64)
    ensures
        n == 60,
{
    60
}

/// The encryption passphrase when none is set: none.
pub fn default_encryption_key() -> (k: Option<String>)
    ensures
        k is None,
{
    None
}

impl Config {
    /// The log level in force: the configured one, or when it is empty the
    /// value of `RUST_LOG`, or `info`.
    pub fn resolve_log_level(configured: String, rust_log: Option<String>) -> (r: String)
        ensures
            configured@.len() > 0 ==> r@ == configured@,
            configured@.len() == 0 ==> r@ == match rust_log {
                Some(v) => v@,
                None => "info"@,
            },
    {
        if configured.as_str().is_empty() {
            match rust_log {
                Some(v) => v,
                None => copy_str("info"),
            }
        } else {
            configured
        }
    }
}

} // verus!
