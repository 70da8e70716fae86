//! Message history kept in a local SQLite file.
//!
//! - `statements`: the SQL, and the values bound to it.
//! - `codec`: messages to columns and back.
//! - `paging`: fetched rows to a page and a cursor, and why following the
//!   cursors visits every message once.
//! - `local_store`: the store, which runs the statements.
//! - `model`: the two tables as sequences of rows, what the statements do
//!   to them, and what follows for resolving, storing and reading.
//! - `message_store`: the log directory of a connection.
//! - `error`: what can go wrong.

pub mod codec;
pub mod error;
pub mod local_store;
pub mod message_store;
pub mod model;
pub mod paging;
pub mod statements;
