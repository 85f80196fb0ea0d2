//! A connection manager that lets a generic resource pool open, probe and
//! classify connections to an embedded SQLite database.
//!
//! The manager holds one immutable [`ConnectionConfig`]: a database file path
//! or the in-memory marker. It holds no live connections and no mutable state.

pub mod engine;
pub mod manager;
pub mod target;

pub use engine::PROBE_STATEMENT;
pub use manager::{ConnectionError, SqliteConnectionManager};
pub use target::{ConnectionConfig, MEMORY_NAME};
