//! The SQL that the store runs, and the values that it binds.
//!
//! A connection is the pair of its client id and its URL. The column
//! `deleted` marks a connection as removed without removing its messages;
//! nothing here sets the mark, and no statement looks at it: a marked
//! connection is resolved, written to and read like any other.

use vstd::prelude::*;
use vstd::string::*;

use crate::client::{clone_bytes, MQTTyClientConnection};
use crate::persistence::codec::{ColumnsView, MessageColumns};
use crate::persistence::paging::fetch_size;

verus! {

/// Creates both tables unless they exist, and switches foreign keys on.
pub const CREATE_SCHEMA: &'static str = "PRAGMA foreign_keys = ON;

CREATE TABLE IF NOT EXISTS mqtt_connections (
    id         INTEGER PRIMARY KEY,
    client_id  TEXT NOT NULL,
    url        TEXT NOT NULL,
    deleted    BOOLEAN NOT NULL DEFAULT FALSE,
    UNIQUE (client_id, url)
);

CREATE TABLE IF NOT EXISTS mqtt_messages (
    id               INTEGER PRIMARY KEY,
    connection_id    INTEGER NOT NULL REFERENCES mqtt_connections(id) ON DELETE CASCADE,
    timestamp        TEXT NOT NULL,
    topic            TEXT NOT NULL,
    qos              INTEGER NOT NULL,
    version          TEXT NOT NULL,
    retained         BOOLEAN NOT NULL,
    content_type     TEXT,
    user_properties  TEXT NOT NULL,
    body             BLOB NOT NULL
);
";

/// The id of the connection with client id `?1` and URL `?2`.
pub const SELECT_CONNECTION_ID: &'static str =
    "SELECT id FROM mqtt_connections WHERE client_id = ?1 AND url = ?2";

/// A new connection with client id `?1` and URL `?2`, not deleted.
pub const INSERT_CONNECTION: &'static str =
    "INSERT INTO mqtt_connections (client_id, url) VALUES (?1, ?2)";

/// A new message of connection `?1` with the columns `?2` to `?9`.
pub const INSERT_MESSAGE: &'static str = "INSERT INTO mqtt_messages (
    connection_id, timestamp, topic, qos, version,
    retained, content_type, user_properties, body
) VALUES (?1, ?2, ?3, ?4, ?5, ?6, ?7, ?8, ?9)";

/// The messages of the connection with client id `?1` and URL `?2`.
pub const SELECT_MESSAGES: &'static str = "SELECT id, timestamp, topic, qos, version, retained, content_type, user_properties, body
FROM mqtt_messages
WHERE connection_id = (
    SELECT id FROM mqtt_connections WHERE client_id = ?1 AND url = ?2
)
";

/// Where the id of the row stands in what `SELECT_MESSAGES` yields, and in
/// what `SELECT_CONNECTION_ID` yields.
pub const ID_COLUMN: usize = 0;

/// Where the timestamp stands in what `SELECT_MESSAGES` yields.
pub const TIMESTAMP_COLUMN: usize = 1;

/// Where the topic stands in what `SELECT_MESSAGES` yields.
pub const TOPIC_COLUMN: usize = 2;

/// Where the level stands in what `SELECT_MESSAGES` yields.
pub const QOS_COLUMN: usize = 3;

/// Where the version stands in what `SELECT_MESSAGES` yields.
pub const VERSION_COLUMN: usize = 4;

/// Where the retained flag stands in what `SELECT_MESSAGES` yields.
pub const RETAINED_COLUMN: usize = 5;

/// Where the content type stands in what `SELECT_MESSAGES` yields.
pub const CONTENT_TYPE_COLUMN: usize = 6;

/// Where the user properties stand in what `SELECT_MESSAGES` yields.
pub const USER_PROPERTIES_COLUMN: usize = 7;

/// Where the body stands in what `SELECT_MESSAGES` yields.
pub const BODY_COLUMN: usize = 8;

/// Only the messages whose id is at most the cursor `?4`.
pub const UP_TO_CURSOR: &'static str = " AND id <= ?4";

/// Newest first, at most `?3` of them.
pub const NEWEST_FIRST: &'static str = " ORDER BY id DESC LIMIT ?3";

/// The text of the reader's query, with or without the cursor clause.
pub open spec fn recent_messages_text(with_cursor: bool) -> Seq<char> {
    if with_cursor {
        SELECT_MESSAGES@ + UP_TO_CURSOR@ + NEWEST_FIRST@
    } else {
        SELECT_MESSAGES@ + NEWEST_FIRST@
    }
}

/// Builds the reader's query: the messages of one connection, newest first,
/// bounded in number, and bounded by a cursor where one is given.
pub fn recent_messages_query(with_cursor: bool) -> (sql: String)
    ensures
        sql@ == recent_messages_text(with_cursor),
{
    let mut sql = String::from_str(SELECT_MESSAGES);
    if with_cursor {
        sql.append(UP_TO_CURSOR);
    }
    sql.append(NEWEST_FIRST);
    sql
}

/// A value bound to a placeholder of a statement.
#[derive(Debug, PartialEq, Eq)]
pub enum SqlValue {
    Null,
    Integer(i64),
    Text(String),
    Blob(Vec<u8>),
}

/// A bound value, as contracts speak of it.
pub enum SqlValueView {
    Null,
    Integer(i64),
    Text(Seq<char>),
    Blob(Seq<u8>),
}

impl View for SqlValue {
    type V = SqlValueView;

    open spec fn view(&self) -> SqlValueView {
        match self {
            SqlValue::Null => SqlValueView::Null,
            SqlValue::Integer(n) => SqlValueView::Integer(*n),
            SqlValue::Text(text) => SqlValueView::Text(text@),
            SqlValue::Blob(bytes) => SqlValueView::Blob(bytes@),
        }
    }
}

impl DeepView for SqlValue {
    type V = SqlValueView;

    open spec fn deep_view(&self) -> SqlValueView {
        self@
    }
}

/// A text column that may be missing: the text, or `NULL`.
pub open spec fn optional_text(text: Option<Seq<char>>) -> SqlValueView {
    match text {
        Some(t) => SqlValueView::Text(t),
        None => SqlValueView::Null,
    }
}

/// A truth value as the engine keeps it: 1 or 0.
pub open spec fn truth(flag: bool) -> SqlValueView {
    SqlValueView::Integer(
        if flag {
            1
        } else {
            0
        },
    )
}

/// What identifies a connection, bound to `?1` and `?2`: its client id and
/// its URL.
pub open spec fn identity_values(client_id: Seq<char>, url: Seq<char>) -> Seq<SqlValueView> {
    seq![SqlValueView::Text(client_id), SqlValueView::Text(url)]
}

/// What `INSERT_MESSAGE` is given: the id of the connection, then the
/// columns in the order of the statement.
pub open spec fn message_values(connection_id: i64, columns: ColumnsView) -> Seq<SqlValueView> {
    seq![
        SqlValueView::Integer(connection_id),
        SqlValueView::Text(columns.timestamp),
        SqlValueView::Text(columns.topic),
        SqlValueView::Integer(columns.qos),
        SqlValueView::Text(columns.version),
        truth(columns.retained),
        optional_text(columns.content_type),
        optional_text(columns.user_properties),
        SqlValueView::Blob(columns.body),
    ]
}

/// What the reader's query is given: the identity of the connection, one
/// more than `limit` as the number of rows to yield, and the cursor where
/// there is one.
pub open spec fn recent_messages_values(
    client_id: Seq<char>,
    url: Seq<char>,
    cursor: Option<i64>,
    limit: int,
) -> Seq<SqlValueView> {
    let bounded = identity_values(client_id, url).push(SqlValueView::Integer((limit + 1) as i64));
    match cursor {
        Some(id) => bounded.push(SqlValueView::Integer(id)),
        None => bounded,
    }
}

fn text_value(text: &String) -> (value: SqlValue)
    ensures
        value@ == SqlValueView::Text(text@),
{
    SqlValue::Text(text.clone())
}

fn optional_text_value(text: &Option<String>) -> (value: SqlValue)
    ensures
        value@ == optional_text(
            match *text {
                Some(t) => Some(t@),
                None => None,
            },
        ),
{
    match text {
        Some(t) => SqlValue::Text(t.clone()),
        None => SqlValue::Null,
    }
}

/// The values that select or insert the row of a connection.
pub fn identity_parameters(conn: &MQTTyClientConnection) -> (values: Vec<SqlValue>)
    ensures
        values.deep_view() == identity_values(conn.client_id@, conn.url@),
{
    let mut values: Vec<SqlValue> = Vec::new();
    values.push(text_value(&conn.client_id));
    values.push(text_value(&conn.url));
    values
}

/// The values that insert a message row for the connection with this id.
pub fn message_parameters(connection_id: i64, columns: &MessageColumns) -> (values: Vec<SqlValue>)
    ensures
        values.deep_view() == message_values(connection_id, columns@),
{
    let mut values: Vec<SqlValue> = Vec::new();
    values.push(SqlValue::Integer(connection_id));
    values.push(text_value(&columns.timestamp));
    values.push(text_value(&columns.topic));
    values.push(SqlValue::Integer(columns.qos));
    values.push(text_value(&columns.version));
    values.push(
        SqlValue::Integer(
            if columns.retained {
                1
            } else {
                0
            },
        ),
    );
    values.push(optional_text_value(&columns.content_type));
    values.push(optional_text_value(&columns.user_properties));
    values.push(SqlValue::Blob(clone_bytes(columns.body.as_slice())));
    values
}

/// The values that the reader's query is run with.
pub fn recent_messages_parameters(
    conn: &MQTTyClientConnection,
    cursor_id: Option<i64>,
    limit: i64,
) -> (values: Vec<SqlValue>)
    requires
        limit < i64::MAX,
    ensures
        values.deep_view() == recent_messages_values(
            conn.client_id@,
            conn.url@,
            cursor_id,
            limit as int,
        ),
{
    let mut values = identity_parameters(conn);
    values.push(SqlValue::Integer(fetch_size(limit)));
    match cursor_id {
        Some(id) => {
            values.push(SqlValue::Integer(id));
        },
        None => {},
    }
    values
}

} // verus!
