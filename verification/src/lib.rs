//! Core of a read-oriented prediction-serving API: configuration validation,
//! connection-string and SQL statement construction, and the mapping of query
//! outcomes onto the wire response, all verified. The surrounding process
//! (environment access, the HTTP server, the database driver) lives outside
//! this crate and hands plain values in and out.

pub mod config;
pub mod db;
pub mod digits;
pub mod health;
pub mod predictions;
