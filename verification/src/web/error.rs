//! The failures of a request, each with the status and the message it is
//! answered with.

use vstd::prelude::*;
use crate::crypt::error::CryptError;
use crate::model::error::ModelError;

verus! {

#[derive(Debug)]
pub enum WebError {
    CookieNotFound,
    InvalidToken(CryptError),
    UserNotFound(i64),
    InvalidCredentials,
    UserAlreadyExists,
    ServerAlreadyExists,
    ServerNotFound,
    ServerNotAllowed,
    /// The server's timeout or interval is below one second.
    ServerNotAcceptable,
    NotifierNotFound,
    NotifierNotAllowed,
    NotifierError(crate::notify::error::Error),
    DatabaseError(ModelError),
    /// Anything else; holds the complaint.
    InternalServerError(String),
}

impl WebError {
    /// The HTTP status a failure is answered with.
    pub open spec fn status(&self) -> u16 {
        match self {
            WebError::CookieNotFound => 401,
            WebError::InvalidToken(_) => 401,
            WebError::UserNotFound(_) => 401,
            WebError::InvalidCredentials => 401,
            WebError::UserAlreadyExists => 409,
            WebError::ServerAlreadyExists => 409,
            WebError::ServerNotFound => 404,
            WebError::ServerNotAllowed => 403,
            WebError::ServerNotAcceptable => 400,
            WebError::NotifierNotFound => 404,
            WebError::NotifierNotAllowed => 403,
            WebError::NotifierError(_) => 400,
            WebError::DatabaseError(_) => 500,
            WebError::InternalServerError(_) => 500,
        }
    }

    /// The message a failure is answered with.
    pub open spec fn message(&self) -> Seq<char> {
        match self {
            WebError::CookieNotFound => "Missing authentication cookie"@,
            WebError::InvalidToken(_) => "Invalid authentication token"@,
            WebError::UserNotFound(_) => "User not found"@,
            WebError::InvalidCredentials => "Invalid credentials"@,
            WebError::UserAlreadyExists => "User already exists"@,
            WebError::ServerAlreadyExists => "Server with such name already exists"@,
            WebError::ServerNotFound => "Server with such ID is not found"@,
            WebError::ServerNotAllowed => "You don't own that server to interact with it"@,
            WebError::ServerNotAcceptable => "Timeout and interval must be at least one second"@,
            WebError::NotifierNotFound => "Notifier with such ID is not found"@,
            WebError::NotifierNotAllowed => "You don't own that notifier to interact with it"@,
            WebError::NotifierError(_) => "Notifier error occured."@,
            WebError::DatabaseError(_) => "Database error occurred. Try again later."@,
            WebError::InternalServerError(_) => "An unexpected error occurred"@,
        }
    }

    pub fn status_code(&self) -> (code: u16)
        ensures
            code == self.status(),
    {
        match self {
            WebError::CookieNotFound => 401,
            WebError::InvalidToken(_) => 401,
            WebError::UserNotFound(_) => 401,
            WebError::InvalidCredentials => 401,
            WebError::UserAlreadyExists => 409,
            WebError::ServerAlreadyExists => 409,
            WebError::ServerNotFound => 404,
            WebError::ServerNotAllowed => 403,
            WebError::ServerNotAcceptable => 400,
            WebError::NotifierNotFound => 404,
            WebError::NotifierNotAllowed => 403,
            WebError::NotifierError(_) => 400,
            WebError::DatabaseError(_) => 500,
            WebError::InternalServerError(_) => 500,
        }
    }

    pub fn response_message(&self) -> (message: &'static str)
        ensures
            message@ == self.message(),
    {
        match self {
            WebError::CookieNotFound => "Missing authentication cookie",
            WebError::InvalidToken(_) => "Invalid authentication token",
            WebError::UserNotFound(_) => "User not found",
            WebError::InvalidCredentials => "Invalid credentials",
            WebError::UserAlreadyExists => "User already exists",
            WebError::ServerAlreadyExists => "Server with such name already exists",
            WebError::ServerNotFound => "Server with such ID is not found",
            WebError::ServerNotAllowed => "You don't own that server to interact with it",
            WebError::ServerNotAcceptable => "Timeout and interval must be at least one second",
            WebError::NotifierNotFound => "Notifier with such ID is not found",
            WebError::NotifierNotAllowed => "You don't own that notifier to interact with it",
            WebError::NotifierError(_) => "Notifier error occured.",
            WebError::DatabaseError(_) => "Database error occurred. Try again later.",
            WebError::InternalServerError(_) => "An unexpected error occurred",
        }
    }
}

} // verus!
