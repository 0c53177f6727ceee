//! Database connection settings.

use vstd::prelude::*;
use crate::duration::Duration;
use crate::text::owned;

verus! {

/// Database connection pool configuration.
#[derive(Debug, Clone)]
pub struct DbConfig {
    /// PostgreSQL host
    pub host: String,
    /// PostgreSQL port
    pub port: u16,
    /// Database name
    pub dbname: String,
    /// Database user
    pub user: String,
    /// Database password
    pub password: String,
    /// Maximum pool size
    pub max_size: usize,
    /// Connection timeout
    pub timeout: Duration,
}

impl Default for DbConfig {
    /// A local development database: `postgres@localhost:5432/caliber`
    /// without password, 16 connections, 30 seconds of timeout.
    fn default() -> (c: Self)
        ensures
            c.host@ == "localhost"@,
            c.port == 5432,
            c.dbname@ == "caliber"@,
            c.user@ == "postgres"@,
            c.password@ == ""@,
            c.max_size == 16,
            c.timeout.spec_secs() == 30,
    {
        DbConfig {
            host: owned("localhost"),
            port: 5432,
            dbname: owned("caliber"),
            user: owned("postgres"),
            password: owned(""),
            max_size: 16,
            timeout: Duration::from_secs(30),
        }
    }
}

} // verus!
