//! The store itself: a SQLite connection and the three operations on it.

use std::path::PathBuf;
use vstd::prelude::*;

use crate::client::{MQTTyClientConnection, MQTTyClientMessage, MessageView};
use crate::persistence::codec::{
    decoded_rows, encode_message, MessageColumns, MessageRow, RowView,
};
use crate::persistence::error::{ConversionFault, StoreError};
use crate::persistence::paging::{lemma_page_is_bounded, page_of_rows, read_page};
use crate::persistence::statements::{
    identity_parameters, message_parameters, recent_messages_parameters, recent_messages_query,
    SqlValue, BODY_COLUMN, CONTENT_TYPE_COLUMN, CREATE_SCHEMA, ID_COLUMN, INSERT_CONNECTION,
    INSERT_MESSAGE, QOS_COLUMN, RETAINED_COLUMN, SELECT_CONNECTION_ID, TIMESTAMP_COLUMN,
    TOPIC_COLUMN, USER_PROPERTIES_COLUMN, VERSION_COLUMN,
};

verus! {

/// `std::path::PathBuf`, carried from where the data directory is found to
/// where the database is opened; nothing is known of what it holds.
#[verifier::external_type_specification]
#[verifier::external_body]
pub struct ExPathBuf(std::path::PathBuf);

/// `rusqlite::Connection`, the handle of an open database; nothing is known
/// of what the database holds.
#[verifier::external_type_specification]
#[verifier::external_body]
pub struct ExSqliteConnection(rusqlite::Connection);

/// `rusqlite::Row`, a row that a running query has stepped to; its columns
/// are read one by one.
#[verifier::external_type_specification]
#[verifier::external_body]
pub struct ExSqliteRow<'stmt>(rusqlite::Row<'stmt>);

/// `rusqlite::types::Value`, a value as the engine takes it for a
/// placeholder; it is only made by `engine_value`.
#[verifier::external_type_specification]
#[verifier::external_body]
pub struct ExSqliteValue(rusqlite::types::Value);

/// Asks `directories::ProjectDirs::from` for the project's directories and
/// takes their `data_dir`. What comes back depends on the user's
/// environment; nothing is claimed of it.
#[verifier::external_body]
fn project_data_dir(qualifier: &str, organization: &str, application: &str) -> Option<PathBuf> {
    directories::ProjectDirs::from(qualifier, organization, application).map(
        |dirs| dirs.data_dir().to_path_buf(),
    )
}

/// `Path::join`: the path of `name` inside `dir`. Nothing is claimed of it.
#[verifier::external_body]
fn path_join(dir: &PathBuf, name: &str) -> PathBuf {
    dir.join(name)
}

/// `rusqlite::Connection::open`. Nothing is claimed of the outcome.
#[verifier::external_body]
fn open_database(path: &PathBuf) -> Result<rusqlite::Connection, rusqlite::Error> {
    rusqlite::Connection::open(path)
}

/// `rusqlite::Connection::execute_batch`. Nothing is claimed of the outcome.
#[verifier::external_body]
fn execute_batch(db: &rusqlite::Connection, sql: &str) -> Result<(), rusqlite::Error> {
    db.execute_batch(sql)
}

/// Turns a bound value into the engine's `rusqlite::types::Value`, variant
/// by variant.
#[verifier::external_body]
fn engine_value(value: &SqlValue) -> rusqlite::types::Value {
    match value {
        SqlValue::Null => rusqlite::types::Value::Null,
        SqlValue::Integer(n) => rusqlite::types::Value::Integer(*n),
        SqlValue::Text(text) => rusqlite::types::Value::Text(text.clone()),
        SqlValue::Blob(bytes) => rusqlite::types::Value::Blob(bytes.clone()),
    }
}

/// `rusqlite::Row::get` for an integer column. Nothing is claimed of the
/// outcome.
#[verifier::external_body]
fn column_integer(row: &rusqlite::Row<'_>, index: usize) -> Result<i64, rusqlite::Error> {
    row.get(index)
}

/// `rusqlite::Row::get` for a text column. Nothing is claimed of the
/// outcome.
#[verifier::external_body]
fn column_text(row: &rusqlite::Row<'_>, index: usize) -> Result<String, rusqlite::Error> {
    row.get(index)
}

/// `rusqlite::Row::get` for a text column that may hold `NULL`. Nothing is
/// claimed of the outcome.
#[verifier::external_body]
fn column_optional_text(row: &rusqlite::Row<'_>, index: usize) -> Result<
    Option<String>,
    rusqlite::Error,
> {
    row.get(index)
}

/// `rusqlite::Row::get` for a truth value. Nothing is claimed of the
/// outcome.
#[verifier::external_body]
fn column_flag(row: &rusqlite::Row<'_>, index: usize) -> Result<bool, rusqlite::Error> {
    row.get(index)
}

/// `rusqlite::Row::get` for a blob column. Nothing is claimed of the
/// outcome.
#[verifier::external_body]
fn column_bytes(row: &rusqlite::Row<'_>, index: usize) -> Result<Vec<u8>, rusqlite::Error> {
    row.get(index)
}

/// Reads the id that `SELECT_CONNECTION_ID` yields.
fn read_id(row: &rusqlite::Row<'_>) -> Result<i64, rusqlite::Error> {
    column_integer(row, ID_COLUMN)
}

/// Reads what `SELECT_MESSAGES` yields for one row: every column at its
/// place in the list, in the order of the list, up to the first that cannot
/// be read.
fn read_row(row: &rusqlite::Row<'_>) -> Result<MessageRow, rusqlite::Error> {
    let id = column_integer(row, ID_COLUMN)?;
    let timestamp = column_text(row, TIMESTAMP_COLUMN)?;
    let topic = column_text(row, TOPIC_COLUMN)?;
    let qos = column_integer(row, QOS_COLUMN)?;
    let version = column_text(row, VERSION_COLUMN)?;
    let retained = column_flag(row, RETAINED_COLUMN)?;
    let content_type = column_optional_text(row, CONTENT_TYPE_COLUMN)?;
    let user_properties = column_optional_text(row, USER_PROPERTIES_COLUMN)?;
    let body = column_bytes(row, BODY_COLUMN)?;
    Ok(
        MessageRow {
            id,
            columns: MessageColumns {
                timestamp,
                topic,
                qos,
                version,
                retained,
                content_type,
                user_properties,
                body,
            },
        },
    )
}

/// `rusqlite::Connection::query_row` with the values bound in their order
/// from `?1` on, and `read_id` for the row; no row is `None`, by
/// `rusqlite::OptionalExtension::optional`. Nothing is claimed of the
/// outcome.
#[verifier::external_body]
fn query_id(db: &rusqlite::Connection, sql: &str, values: &Vec<SqlValue>) -> Result<
    Option<i64>,
    rusqlite::Error,
> {
    let bound = rusqlite::params_from_iter(values.iter().map(engine_value));
    rusqlite::OptionalExtension::optional(db.query_row(sql, bound, read_id))
}

/// `rusqlite::Connection::execute` with the values bound in their order
/// from `?1` on. Nothing is claimed of the outcome.
#[verifier::external_body]
fn execute(db: &rusqlite::Connection, sql: &str, values: &Vec<SqlValue>) -> Result<
    usize,
    rusqlite::Error,
> {
    db.execute(sql, rusqlite::params_from_iter(values.iter().map(engine_value)))
}

/// `rusqlite::Connection::last_insert_rowid`. Nothing is claimed of the
/// outcome.
#[verifier::external_body]
fn last_insert_rowid(db: &rusqlite::Connection) -> i64 {
    db.last_insert_rowid()
}

/// `rusqlite::Connection::prepare` and `rusqlite::Statement::query_map`
/// with the values bound in their order from `?1` on, and `read_row` for
/// each row; the rows are collected in the order in which the engine yields
/// them, up to the first that cannot be read. Nothing is claimed of the
/// outcome.
#[verifier::external_body]
fn query_rows(db: &rusqlite::Connection, sql: &str, values: &Vec<SqlValue>) -> Result<
    Vec<MessageRow>,
    rusqlite::Error,
> {
    let mut statement = db.prepare(sql)?;
    let bound = rusqlite::params_from_iter(values.iter().map(engine_value));
    let rows = statement.query_map(bound, read_row)?;
    rows.collect()
}

/// What the store returns for what the engine answered: the engine's
/// result as it is, and its error as `StoreError::Sqlite`.
pub fn engine_result<T>(outcome: Result<T, rusqlite::Error>) -> (r: Result<T, StoreError>)
    ensures
        match outcome {
            Ok(value) => r == Ok::<T, StoreError>(value),
            Err(e) => r == Err::<T, StoreError>(StoreError::Sqlite(e)),
        },
{
    match outcome {
        Ok(value) => Ok(value),
        Err(e) => Err(StoreError::Sqlite(e)),
    }
}

/// The data directory that was found, or the failure to find one.
pub fn data_dir_or_error(data_dir: Option<PathBuf>) -> (r: Result<PathBuf, StoreError>)
    ensures
        match data_dir {
            Some(dir) => r == Ok::<PathBuf, StoreError>(dir),
            None => r == Err::<PathBuf, StoreError>(StoreError::NoProjectDir),
        },
{
    match data_dir {
        Some(dir) => Ok(dir),
        None => Err(StoreError::NoProjectDir),
    }
}

/// What resolving a connection returns once the lookup has answered: for a
/// connection that it found, the id of its row, and that no row was
/// inserted; nothing yet for one that it did not find, which is to be
/// inserted.
pub open spec fn resolution_of_lookup(found: Option<i64>) -> Option<(i64, bool)> {
    match found {
        Some(id) => Some((id, false)),
        None => None,
    }
}

/// What resolving a connection returns once it has been inserted as the row
/// `row_id`: that id, and that a row was inserted.
pub open spec fn resolution_of_insert(row_id: i64) -> (i64, bool) {
    (row_id, true)
}

/// The resolver's answer after the lookup, where the lookup settles it.
pub fn resolve_found(found: Option<i64>) -> (r: Option<(i64, bool)>)
    ensures
        r == resolution_of_lookup(found),
{
    match found {
        Some(id) => Some((id, false)),
        None => None,
    }
}

/// The resolver's answer after the insertion.
pub fn resolve_inserted(row_id: i64) -> (r: (i64, bool))
    ensures
        r == resolution_of_insert(row_id),
{
    (row_id, true)
}

/// Local storage of MQTT connections and their messages in a SQLite
/// database.
///
/// Every operation is one or two statements of `statements`, run to the end
/// on the calling thread; each statement is a transaction of its own. What
/// the engine answers is not known to the contracts here: they tell which
/// failure can come from where, and that what is returned is cut from the
/// fetched rows as `paging` says. What the statements mean for the rows of
/// the two tables is written down, and reasoned about, in `model`.
pub struct MQTTyLocalStore {
    sql_conn: rusqlite::Connection,
}

impl MQTTyLocalStore {
    /// Opens the store in the user's data directory, creating the tables
    /// where they are missing.
    pub fn new() -> (r: Result<Self, StoreError>)
        ensures
            r matches Err(e) ==> e is NoProjectDir || e is Sqlite,
    {
        let db_path = match Self::get_db_path() {
            Ok(path) => path,
            Err(e) => {
                return Err(e);
            },
        };
        Self::open(&db_path)
    }

    /// Opens the store in the database file at `path`, creating the tables
    /// where they are missing. The path `:memory:` gives a store that lives
    /// as long as the value.
    pub fn open(path: &PathBuf) -> (r: Result<Self, StoreError>)
        ensures
            r matches Err(e) ==> e is Sqlite,
    {
        let sql_conn = match engine_result(open_database(path)) {
            Ok(db) => db,
            Err(e) => {
                return Err(e);
            },
        };
        match engine_result(execute_batch(&sql_conn, CREATE_SCHEMA)) {
            Ok(()) => Ok(MQTTyLocalStore { sql_conn }),
            Err(e) => Err(e),
        }
    }

    /// The database file `messages.db` in the project's data directory.
    pub fn get_db_path() -> (r: Result<PathBuf, StoreError>)
        ensures
            r matches Err(e) ==> e is NoProjectDir,
    {
        match data_dir_or_error(project_data_dir("io.github", "otaxhu", "MQTTy")) {
            Ok(dir) => Ok(path_join(&dir, "messages.db")),
            Err(e) => Err(e),
        }
    }

    /// Returns the row id of the connection with this client id and URL,
    /// and whether a new row was inserted for it.
    pub fn get_or_insert_connection(&self, conn: &MQTTyClientConnection) -> (r: Result<
        (i64, bool),
        StoreError,
    >)
        ensures
            r matches Err(e) ==> e is Sqlite,
    {
        let identity = identity_parameters(conn);
        let found = match engine_result(
            query_id(&self.sql_conn, SELECT_CONNECTION_ID, &identity),
        ) {
            Ok(found) => found,
            Err(e) => {
                return Err(e);
            },
        };
        match resolve_found(found) {
            Some(resolution) => Ok(resolution),
            None => match engine_result(execute(&self.sql_conn, INSERT_CONNECTION, &identity)) {
                Ok(_) => Ok(resolve_inserted(last_insert_rowid(&self.sql_conn))),
                Err(e) => Err(e),
            },
        }
    }

    /// Appends one message row for the connection, which is inserted first
    /// where it is not known yet.
    pub fn store_message(&self, conn: &MQTTyClientConnection, msg: &MQTTyClientMessage) -> (r:
        Result<(), StoreError>)
        ensures
            r matches Err(e) ==> e is Sqlite,
    {
        let conn_id = match self.get_or_insert_connection(conn) {
            Ok((id, _)) => id,
            Err(e) => {
                return Err(e);
            },
        };
        let columns = match encode_message(msg) {
            Ok(columns) => columns,
            Err(e) => {
                return Err(e);
            },
        };
        let values = message_parameters(conn_id, &columns);
        match engine_result(execute(&self.sql_conn, INSERT_MESSAGE, &values)) {
            Ok(_) => Ok(()),
            Err(e) => Err(e),
        }
    }

    /// Returns `(messages, next_cursor)` for the connection: at most
    /// `limit` messages from newest to oldest, starting at the row
    /// `cursor_id` where one is given, and the cursor to pass in order to go
    /// on towards older messages, or `None` where no message is left.
    pub fn get_recent_messages_for_connection(
        &self,
        conn: &MQTTyClientConnection,
        cursor_id: Option<i64>,
        limit: i64,
    ) -> (r: Result<(Vec<MQTTyClientMessage>, Option<i64>), StoreError>)
        requires
            limit < i64::MAX,
        ensures
            match r {
                Ok(page) => {
                    &&& exists|rows: Seq<RowView>| #[trigger]
                        page_of_rows(rows, limit as int) == Ok::<_, ConversionFault>(
                            (page.0.deep_view(), page.1),
                        )
                    &&& 0 <= limit ==> page.0.len() <= limit
                    &&& page.1 is Some ==> page.0.len() == limit
                },
                Err(StoreError::Conversion(e)) => exists|rows: Seq<RowView>| #[trigger]
                    page_of_rows(rows, limit as int) == Err::<(Seq<MessageView>, Option<i64>), _>(
                        e@,
                    ),
                Err(e) => e is Sqlite,
            },
    {
        let query = recent_messages_query(cursor_id.is_some());
        let values = recent_messages_parameters(conn, cursor_id, limit);
        let fetched = query_rows(&self.sql_conn, query.as_str(), &values);
        let rows = match fetched {
            Ok(rows) => rows,
            Err(e) => {
                return Err(StoreError::Sqlite(e));
            },
        };
        let ghost fetched_rows = rows.deep_view();
        match read_page(rows, limit) {
            Ok(page) => {
                proof {
                    lemma_page_is_bounded(decoded_rows(fetched_rows)->Ok_0, limit as int);
                }
                Ok(page)
            },
            Err(e) => Err(StoreError::Conversion(e)),
        }
    }
}

} // verus!
