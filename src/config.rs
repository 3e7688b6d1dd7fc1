use crate::errors::AppError;
use vstd::prelude::*;

verus! {

pub const DEFAULT_MAX_CONNECTIONS: u32 = 10;

pub const DEFAULT_MIN_CONNECTIONS: u32 = 1;

pub const DEFAULT_CONNECT_TIMEOUT_MS: u64 = 5000;

pub const DEFAULT_ACQUIRE_TIMEOUT_MS: u64 = 5000;

pub const DEFAULT_IDLE_TIMEOUT_MS: u64 = 300000;

pub const DEFAULT_MAX_LIFETIME_MS: u64 = 1800000;

/// Settings of the connection pool. Durations are in milliseconds.
#[derive(Debug)]
pub struct DbConfig {
    pub database_url: String,
    pub max_connections: u32,
    pub min_connections: u32,
    pub connection_timeout_ms: u64,
    pub acquire_timeout_ms: u64,
    pub idle_timeout_ms: Option<u64>,
    pub max_lifetime_ms: Option<u64>,
}

/// A duration that, when present, is positive.
pub open spec fn positive_if_present(d: Option<u64>) -> bool {
    match d {
        Some(ms) => ms > 0,
        None => true,
    }
}

/// What the pool builder is given for each attempt. The idle timeout and the
/// maximum lifetime are set only where present; every connection is tested
/// before it is handed out.
#[derive(Debug)]
pub struct PoolSettings {
    pub max_connections: u32,
    pub min_connections: u32,
    pub connect_timeout_ms: u64,
    pub acquire_timeout_ms: u64,
    pub idle_timeout_ms: Option<u64>,
    pub max_lifetime_ms: Option<u64>,
    pub test_before_acquire: bool,
}

impl DbConfig {
    /// At least one connection, no more kept open than allowed, and every
    /// duration positive.
    pub open spec fn wf(&self) -> bool {
        &&& self.max_connections >= 1
        &&& self.min_connections <= self.max_connections
        &&& self.connection_timeout_ms > 0
        &&& self.acquire_timeout_ms > 0
        &&& positive_if_present(self.idle_timeout_ms)
        &&& positive_if_present(self.max_lifetime_ms)
    }

    /// The documented defaults, around the given connection string.
    pub open spec fn defaults_for(&self, url: Seq<char>) -> bool {
        &&& self.database_url@ == url
        &&& self.max_connections == DEFAULT_MAX_CONNECTIONS
        &&& self.min_connections == DEFAULT_MIN_CONNECTIONS
        &&& self.connection_timeout_ms == DEFAULT_CONNECT_TIMEOUT_MS
        &&& self.acquire_timeout_ms == DEFAULT_ACQUIRE_TIMEOUT_MS
        &&& self.idle_timeout_ms == Some(DEFAULT_IDLE_TIMEOUT_MS)
        &&& self.max_lifetime_ms == Some(DEFAULT_MAX_LIFETIME_MS)
    }

    /// The default settings for the given connection string.
    pub fn with_url(database_url: String) -> (r: DbConfig)
        ensures
            r.defaults_for(database_url@),
            r.wf(),
    {
        DbConfig {
            database_url,
            max_connections: DEFAULT_MAX_CONNECTIONS,
            min_connections: DEFAULT_MIN_CONNECTIONS,
            connection_timeout_ms: DEFAULT_CONNECT_TIMEOUT_MS,
            acquire_timeout_ms: DEFAULT_ACQUIRE_TIMEOUT_MS,
            idle_timeout_ms: Some(DEFAULT_IDLE_TIMEOUT_MS),
            max_lifetime_ms: Some(DEFAULT_MAX_LIFETIME_MS),
        }
    }

    /// The default settings from the configured connection string, which is
    /// required: without one the result is an internal error naming it.
    pub fn from_database_url(value: Option<String>) -> (r: Result<DbConfig, AppError>)
        ensures
            value is Some <==> r is Ok,
            value is Some ==> r->Ok_0.defaults_for(value->0@) && r->Ok_0.wf(),
            value is None ==> (r matches Err(AppError::Internal(m)) && m@
                == "DATABASE_URL must be set"@),
    {
        match value {
            Some(url) => Ok(DbConfig::with_url(url)),
            None => Err(AppError::Internal("DATABASE_URL must be set".to_owned())),
        }
    }

    /// The builder settings of every attempt.
    pub fn pool_settings(&self) -> (r: PoolSettings)
        ensures
            r.max_connections == self.max_connections,
            r.min_connections == self.min_connections,
            r.connect_timeout_ms == self.connection_timeout_ms,
            r.acquire_timeout_ms == self.acquire_timeout_ms,
            r.idle_timeout_ms == self.idle_timeout_ms,
            r.max_lifetime_ms == self.max_lifetime_ms,
            r.test_before_acquire,
    {
        PoolSettings {
            max_connections: self.max_connections,
            min_connections: self.min_connections,
            connect_timeout_ms: self.connection_timeout_ms,
            acquire_timeout_ms: self.acquire_timeout_ms,
            idle_timeout_ms: self.idle_timeout_ms,
            max_lifetime_ms: self.max_lifetime_ms,
            test_before_acquire: true,
        }
    }

    /// Checks the settings' invariant on values built field by field.
    pub fn is_valid(&self) -> (r: bool)
        ensures
            r == self.wf(),
    {
        let idle_ok = match self.idle_timeout_ms {
            Some(ms) => ms > 0,
            None => true,
        };
        let lifetime_ok = match self.max_lifetime_ms {
            Some(ms) => ms > 0,
            None => true,
        };
        self.max_connections >= 1 && self.min_connections <= self.max_connections
            && self.connection_timeout_ms > 0 && self.acquire_timeout_ms > 0 && idle_ok
            && lifetime_ok
    }
}

} // verus!
