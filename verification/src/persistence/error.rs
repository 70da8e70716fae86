//! What can go wrong while storing or reading messages.

use vstd::prelude::*;

use crate::persistence::statements::{QOS_COLUMN, USER_PROPERTIES_COLUMN, VERSION_COLUMN};

verus! {

/// `rusqlite::Error`, what the database engine reports; it is carried to
/// the caller unread.
#[verifier::external_type_specification]
#[verifier::external_body]
pub struct ExSqliteError(rusqlite::Error);

/// `serde_json::Error`, what the JSON encoder or parser reports; it is
/// carried to the caller unread.
#[verifier::external_type_specification]
#[verifier::external_body]
pub struct ExJsonError(serde_json::Error);

/// A stored column holds a value that no message can carry.
#[derive(Debug)]
pub enum ConversionError {
    /// The `qos` column is none of 0, 1 and 2.
    InvalidQos(i64),
    /// The `version` column is neither `3.x` nor `5`.
    InvalidVersion(String),
    /// The `user_properties` column is no JSON list of string pairs.
    InvalidUserProperties(serde_json::Error),
}

/// A conversion error without what the JSON parser had to say.
pub enum ConversionFault {
    InvalidQos(i64),
    InvalidVersion(Seq<char>),
    InvalidUserProperties,
}

impl ConversionFault {
    /// Index of the offending column in the reader's SELECT list.
    pub open spec fn column(self) -> int {
        match self {
            ConversionFault::InvalidQos(_) => QOS_COLUMN as int,
            ConversionFault::InvalidVersion(_) => VERSION_COLUMN as int,
            ConversionFault::InvalidUserProperties => USER_PROPERTIES_COLUMN as int,
        }
    }
}

impl View for ConversionError {
    type V = ConversionFault;

    open spec fn view(&self) -> ConversionFault {
        match self {
            ConversionError::InvalidQos(n) => ConversionFault::InvalidQos(*n),
            ConversionError::InvalidVersion(tag) => ConversionFault::InvalidVersion(tag@),
            ConversionError::InvalidUserProperties(_) => ConversionFault::InvalidUserProperties,
        }
    }
}

impl ConversionError {
    /// Index of the offending column in the reader's SELECT list.
    pub fn column(&self) -> (c: usize)
        ensures
            c == self@.column(),
    {
        match self {
            ConversionError::InvalidQos(_) => QOS_COLUMN,
            ConversionError::InvalidVersion(_) => VERSION_COLUMN,
            ConversionError::InvalidUserProperties(_) => USER_PROPERTIES_COLUMN,
        }
    }
}

/// Failure of a store operation.
#[derive(Debug)]
pub enum StoreError {
    /// The database engine refused or failed a statement.
    Sqlite(rusqlite::Error),
    /// The JSON encoder reported a failure. Writing user properties does
    /// not fail, so no operation of the store returns this.
    SerdeJson(serde_json::Error),
    /// No per-user data directory could be determined.
    NoProjectDir,
    /// A stored row does not describe a message.
    Conversion(ConversionError),
}

} // verus!
