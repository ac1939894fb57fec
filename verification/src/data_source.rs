//! How the failure of an operation is answered over HTTP.

use vstd::prelude::*;
use crate::manager_and_data::ManagerAndDataError;
use crate::source_state::ErrorKind;
use crate::server_plugin::FlorustServerPluginError;

verus! {

/// The HTTP status that answers a failure of the given kind: 409 for the
/// registration of a data source that is still registered, 404 for an
/// unknown manager and for a data source that is unknown or deregistered,
/// 400 for a payload the manager turned down, and 500 for a read that found
/// no data or no such position.
pub open spec fn status_of(kind: ErrorKind) -> int {
    match kind {
        ErrorKind::IdAlreadyExists(_) => 409,
        ErrorKind::IdDoesntExist(_)
        | ErrorKind::IdAlreadyDeregistered(_)
        | ErrorKind::ManagerDoesntExist(_) => 404,
        ErrorKind::InvalidPayload(_) => 400,
        ErrorKind::NoData | ErrorKind::IndexOutOfBounds => 500,
    }
}

/// The answer to a failed request: its status class and its body.
#[derive(Debug, PartialEq, Eq)]
pub enum DataSourceError {
    /// Status 400.
    BadRequest(String),
    /// Status 404.
    NotFound(String),
    /// Status 409.
    Conflict(String),
    /// Status 500.
    InternalError(String),
}

impl DataSourceError {
    /// The HTTP status of the answer.
    pub open spec fn status(&self) -> int {
        match self {
            DataSourceError::BadRequest(_) => 400,
            DataSourceError::NotFound(_) => 404,
            DataSourceError::Conflict(_) => 409,
            DataSourceError::InternalError(_) => 500,
        }
    }

    /// The body of the answer.
    pub open spec fn body(&self) -> Seq<char> {
        match self {
            DataSourceError::BadRequest(body) => body@,
            DataSourceError::NotFound(body) => body@,
            DataSourceError::Conflict(body) => body@,
            DataSourceError::InternalError(body) => body@,
        }
    }

    /// The answer to the failure `value`, with `body` as its body.
    pub fn from_error(value: &ManagerAndDataError, body: String) -> (answer: DataSourceError)
        ensures
            answer.status() == status_of(value@),
            answer.body() == body@,
    {
        match value {
            ManagerAndDataError::DataSourceManager(error) => match error {
                FlorustServerPluginError::DataSourceAlreadyExists(_) => Self::Conflict(body),
                FlorustServerPluginError::DataSourceDoesntExist(_)
                | FlorustServerPluginError::DataSourceAlreadyDeregistered(_)
                | FlorustServerPluginError::DataSourceManagerDoesntExist(_) => Self::NotFound(
                    body,
                ),
                FlorustServerPluginError::DataSourceManager(_) => Self::BadRequest(body),
            },
            ManagerAndDataError::NoData => Self::InternalError(body),
            ManagerAndDataError::IndexOutOfBounds => Self::InternalError(body),
        }
    }

    /// The HTTP status of the answer.
    pub fn status_code(&self) -> (code: u16)
        ensures
            code == self.status(),
    {
        match self {
            DataSourceError::BadRequest(_) => 400,
            DataSourceError::NotFound(_) => 404,
            DataSourceError::Conflict(_) => 409,
            DataSourceError::InternalError(_) => 500,
        }
    }
}

} // verus!
