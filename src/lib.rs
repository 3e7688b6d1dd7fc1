//! Startup and error-reporting core of a database-backed web service.
//!
//! `config` holds the pool settings, `bootstrap` the retrying acquisition
//! protocol for the connection pool, and `errors` the closed error taxonomy
//! with its mapping onto wire responses.

pub mod bootstrap;
pub mod config;
pub mod errors;
pub mod text;
