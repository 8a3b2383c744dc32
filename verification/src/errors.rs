//! The closed set of error kinds a request can end in.
//!
//! Lower-layer failures are carried as their message text; the storage
//! "row not found" condition has a kind of its own, so the router can map it
//! to a distinct HTTP status.

use vstd::prelude::*;

verus! {

/// One terminal failure of a request.
#[derive(Debug)]
pub enum Error {
    /// A generic persistence failure, carrying the storage engine's message.
    MySql(String),
    /// No storage connection could be acquired; carries the pool's message.
    MySqlConnection(String),
    /// No row matches the looked-up id.
    RecordNotFound,
    /// The request body is not the JSON the endpoint expects.
    JsonParse(String),
    /// A lower-level protocol failure, carrying the transport's message.
    HttpServer(String),
    /// The payload broke a business rule; carries the human-readable reason.
    Validation(String),
}

impl Error {
    /// The display string: the kind's name with the inner cause embedded.
    pub open spec fn display_seq(&self) -> Seq<char> {
        match self {
            Error::MySql(m) => "Error::MySql "@ + m@,
            Error::MySqlConnection(m) => "Error::MySqlConnection "@ + m@,
            Error::RecordNotFound => "Error::RecordNotFound"@,
            Error::JsonParse(m) => "Error::JsonParse "@ + m@,
            Error::HttpServer(m) => "Error::HttpServer "@ + m@,
            Error::Validation(m) => "Error::Validation "@ + m@,
        }
    }

    /// The short description: fixed for the kinds of this crate's own rules,
    /// the carried message for wrapped lower-layer failures.
    pub open spec fn description_seq(&self) -> Seq<char> {
        match self {
            Error::MySql(m) => m@,
            Error::MySqlConnection(m) => m@,
            Error::RecordNotFound => "record not found in database"@,
            Error::JsonParse(m) => m@,
            Error::HttpServer(m) => m@,
            Error::Validation(_) => "input data validation error"@,
        }
    }

    /// Render the error for a response body, kind name first.
    pub fn display_string(&self) -> (r: String)
        ensures
            r@ == self.display_seq(),
    {
        match self {
            Error::MySql(m) => String::from_str("Error::MySql ").concat(m.as_str()),
            Error::MySqlConnection(m) => String::from_str("Error::MySqlConnection ").concat(
                m.as_str(),
            ),
            Error::RecordNotFound => String::from_str("Error::RecordNotFound"),
            Error::JsonParse(m) => String::from_str("Error::JsonParse ").concat(m.as_str()),
            Error::HttpServer(m) => String::from_str("Error::HttpServer ").concat(m.as_str()),
            Error::Validation(m) => String::from_str("Error::Validation ").concat(m.as_str()),
        }
    }

    /// The short description of the kind.
    pub fn description(&self) -> (r: String)
        ensures
            r@ == self.description_seq(),
    {
        match self {
            Error::MySql(m) => m.clone(),
            Error::MySqlConnection(m) => m.clone(),
            Error::RecordNotFound => String::from_str("record not found in database"),
            Error::JsonParse(m) => m.clone(),
            Error::HttpServer(m) => m.clone(),
            Error::Validation(_) => String::from_str("input data validation error"),
        }
    }
}

} // verus!
