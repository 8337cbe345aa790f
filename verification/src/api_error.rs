//! The errors the API answers with: the HTTP status of each, the message it
//! is shown with and the detail sent along. Errors that wrap an error of
//! another part of the server hold that error's message.
use vstd::prelude::*;
use crate::jsonapi::SerializableError;
use crate::text::{copy_opt_string, copy_string, opt_view, to_owned_string};

verus! {

/// The errors of the API's handlers.
pub enum Error {
    DbErr(String),
    NotFound(Option<String>),
    NotModified,
    Unauthorized(Option<String>),
    BadRequest(Option<String>),
    Settings(String),
    Connection(String),
    Search(String),
    Auth(String),
    Claims(String),
    Update(String),
    NoTrackPath,
    NoTrackFormat,
}

impl Error {
    /// The HTTP status the error is answered with.
    pub open spec fn status_spec(&self) -> u16 {
        match self {
            Error::DbErr(_) => 500,
            Error::NotFound(_) => 404,
            Error::NotModified => 304,
            Error::Unauthorized(_) => 401,
            Error::BadRequest(_) => 400,
            Error::Settings(_) => 500,
            Error::Connection(_) => 500,
            Error::Search(_) => 500,
            Error::Auth(_) => 500,
            Error::Claims(_) => 500,
            Error::Update(_) => 500,
            Error::NoTrackPath => 500,
            Error::NoTrackFormat => 500,
        }
    }

    /// The message the error is shown with.
    pub open spec fn title_spec(&self) -> Seq<char> {
        match self {
            Error::DbErr(_) => "Database error"@,
            Error::NotFound(_) => "Not found"@,
            Error::NotModified => "Not modified"@,
            Error::Unauthorized(_) => "Unauthorized"@,
            Error::BadRequest(_) => "Bad request"@,
            Error::Settings(m) => "Could not read settings: "@ + m@,
            Error::Connection(m) => "Could not operate on the connection: "@ + m@,
            Error::Search(m) => "Could not operate on the search index: "@ + m@,
            Error::Auth(m) => "Could not authenticate: "@ + m@,
            Error::Claims(m) => "Could not fetch auth claims: "@ + m@,
            Error::Update(m) => "Could not run update: "@ + m@,
            Error::NoTrackPath => "Track does not have an associated path"@,
            Error::NoTrackFormat => "Track does not have an associated format"@,
        }
    }

    /// The detail the error is shown with, if any.
    pub open spec fn detail_spec(&self) -> Option<Seq<char>> {
        match self {
            Error::DbErr(m) => Some(m@),
            Error::NotFound(o) => opt_view(*o),
            Error::Unauthorized(o) => opt_view(*o),
            Error::BadRequest(o) => opt_view(*o),
            _ => None,
        }
    }

    /// The HTTP status the error is answered with: not found, not modified,
    /// unauthorized and bad request have their own; every other error is an
    /// internal server error.
    pub fn status(&self) -> (r: u16)
        ensures
            r == self.status_spec(),
    {
        match self {
            Error::DbErr(_) => 500,
            Error::NotFound(_) => 404,
            Error::NotModified => 304,
            Error::Unauthorized(_) => 401,
            Error::BadRequest(_) => 400,
            Error::Settings(_) => 500,
            Error::Connection(_) => 500,
            Error::Search(_) => 500,
            Error::Auth(_) => 500,
            Error::Claims(_) => 500,
            Error::Update(_) => 500,
            Error::NoTrackPath => 500,
            Error::NoTrackFormat => 500,
        }
    }

    /// The message the error is shown with.
    pub fn title(&self) -> (r: String)
        ensures
            r@ == self.title_spec(),
    {
        match self {
            Error::DbErr(_) => to_owned_string("Database error"),
            Error::NotFound(_) => to_owned_string("Not found"),
            Error::NotModified => to_owned_string("Not modified"),
            Error::Unauthorized(_) => to_owned_string("Unauthorized"),
            Error::BadRequest(_) => to_owned_string("Bad request"),
            Error::Settings(m) => {
                let mut s = to_owned_string("Could not read settings: ");
                s.append(m.as_str());
                s
            },
            Error::Connection(m) => {
                let mut s = to_owned_string("Could not operate on the connection: ");
                s.append(m.as_str());
                s
            },
            Error::Search(m) => {
                let mut s = to_owned_string("Could not operate on the search index: ");
                s.append(m.as_str());
                s
            },
            Error::Auth(m) => {
                let mut s = to_owned_string("Could not authenticate: ");
                s.append(m.as_str());
                s
            },
            Error::Claims(m) => {
                let mut s = to_owned_string("Could not fetch auth claims: ");
                s.append(m.as_str());
                s
            },
            Error::Update(m) => {
                let mut s = to_owned_string("Could not run update: ");
                s.append(m.as_str());
                s
            },
            Error::NoTrackPath => to_owned_string("Track does not have an associated path"),
            Error::NoTrackFormat => to_owned_string("Track does not have an associated format"),
        }
    }

    /// The error as it is sent to the client.
    pub fn to_serializable(&self) -> (r: SerializableError)
        ensures
            r.status == self.status_spec(),
            r.title@ == self.title_spec(),
            opt_view(r.detail) == self.detail_spec(),
    {
        let detail = match self {
            Error::DbErr(m) => Some(copy_string(m)),
            Error::NotFound(o) => copy_opt_string(o),
            Error::Unauthorized(o) => copy_opt_string(o),
            Error::BadRequest(o) => copy_opt_string(o),
            _ => None,
        };
        SerializableError { status: self.status(), title: self.title(), detail }
    }
}
/// The errors of the public API's resource handlers.
pub enum TempoError {
    DbErr(String),
    NotFound(Option<String>),
    NotModified,
    Unauthorized(Option<String>),
    BadRequest(Option<String>),
    Settings(String),
    Connection(String),
    Search(String),
    NoTrackPath,
    NoTrackFormat,
}

impl TempoError {
    /// The HTTP status the error is answered with.
    pub open spec fn status_spec(&self) -> u16 {
        match self {
            TempoError::DbErr(_) => 500,
            TempoError::NotFound(_) => 404,
            TempoError::NotModified => 304,
            TempoError::Unauthorized(_) => 401,
            TempoError::BadRequest(_) => 400,
            TempoError::Settings(_) => 500,
            TempoError::Connection(_) => 500,
            TempoError::Search(_) => 500,
            TempoError::NoTrackPath => 500,
            TempoError::NoTrackFormat => 500,
        }
    }

    /// The message the error is shown with.
    pub open spec fn title_spec(&self) -> Seq<char> {
        match self {
            TempoError::DbErr(_) => "Database error"@,
            TempoError::NotFound(_) => "Not found"@,
            TempoError::NotModified => "Not modified"@,
            TempoError::Unauthorized(_) => "Unauthorized"@,
            TempoError::BadRequest(_) => "Bad request"@,
            TempoError::Settings(m) => "Could not read settings: "@ + m@,
            TempoError::Connection(m) => "Could not operate on the connection: "@ + m@,
            TempoError::Search(m) => "Could not operate on the search index: "@ + m@,
            TempoError::NoTrackPath => "Track does not have an associated path"@,
            TempoError::NoTrackFormat => "Track does not have an associated format"@,
        }
    }

    /// The detail the error is shown with, if any.
    pub open spec fn detail_spec(&self) -> Option<Seq<char>> {
        match self {
            TempoError::DbErr(m) => Some(m@),
            TempoError::NotFound(o) => opt_view(*o),
            TempoError::Unauthorized(o) => opt_view(*o),
            TempoError::BadRequest(o) => opt_view(*o),
            _ => None,
        }
    }

    /// The HTTP status the error is answered with: not found, not modified,
    /// unauthorized and bad request have their own; every other error is an
    /// internal server error.
    pub fn status(&self) -> (r: u16)
        ensures
            r == self.status_spec(),
    {
        match self {
            TempoError::DbErr(_) => 500,
            TempoError::NotFound(_) => 404,
            TempoError::NotModified => 304,
            TempoError::Unauthorized(_) => 401,
            TempoError::BadRequest(_) => 400,
            TempoError::Settings(_) => 500,
            TempoError::Connection(_) => 500,
            TempoError::Search(_) => 500,
            TempoError::NoTrackPath => 500,
            TempoError::NoTrackFormat => 500,
        }
    }

    /// The message the error is shown with.
    pub fn title(&self) -> (r: String)
        ensures
            r@ == self.title_spec(),
    {
        match self {
            TempoError::DbErr(_) => to_owned_string("Database error"),
            TempoError::NotFound(_) => to_owned_string("Not found"),
            TempoError::NotModified => to_owned_string("Not modified"),
            TempoError::Unauthorized(_) => to_owned_string("Unauthorized"),
            TempoError::BadRequest(_) => to_owned_string("Bad request"),
            TempoError::Settings(m) => {
                let mut s = to_owned_string("Could not read settings: ");
                s.append(m.as_str());
                s
            },
            TempoError::Connection(m) => {
                let mut s = to_owned_string("Could not operate on the connection: ");
                s.append(m.as_str());
                s
            },
            TempoError::Search(m) => {
                let mut s = to_owned_string("Could not operate on the search index: ");
                s.append(m.as_str());
                s
            },
            TempoError::NoTrackPath => to_owned_string("Track does not have an associated path"),
            TempoError::NoTrackFormat => to_owned_string("Track does not have an associated format"),
        }
    }

    /// The error as it is sent to the client.
    pub fn to_serializable(&self) -> (r: SerializableError)
        ensures
            r.status == self.status_spec(),
            r.title@ == self.title_spec(),
            opt_view(r.detail) == self.detail_spec(),
    {
        let detail = match self {
            TempoError::DbErr(m) => Some(copy_string(m)),
            TempoError::NotFound(o) => copy_opt_string(o),
            TempoError::Unauthorized(o) => copy_opt_string(o),
            TempoError::BadRequest(o) => copy_opt_string(o),
            _ => None,
        };
        SerializableError { status: self.status(), title: self.title(), detail }
    }
}
} // verus!
