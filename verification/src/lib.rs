//! The data and the local message history of an MQTT desktop client.
//!
//! - `client`: connections, subscriptions and messages as plain data.
//! - `content_type`: the content types a message body can be edited as.
//! - `display_mode`: the two layouts of the views.
//! - `objects`: the rows of a key/value editor.
//! - `persistence`: the message history in a SQLite database, read page by
//!   page from newest to oldest, and the name of a connection's log
//!   directory.
//! - `utils`: the names that user-interface actions use for versions and
//!   levels, accent colours, and language tags from locale names.
//! - `widgets`: what the views show and send, worked out from plain values.
//!
//! The database engine, the JSON encoder and the hash function are outside
//! crates. They are called through small private functions, each of which
//! says in its doc comment what is taken for granted of the call; everything
//! else is verified against the contracts stated here.

pub mod client;
pub mod content_type;
pub mod display_mode;
pub mod objects;
pub mod persistence;
pub mod utils;
pub mod widgets;
