//! Error kinds of the authentication core and their user-visible form.

use axum::http::StatusCode;
use vstd::prelude::*;

use crate::text::{decimal, decimal_string};

verus! {

/// The body of an error reply: the status line and a message.
#[derive(Debug)]
pub struct ErrorResponse {
    pub status: String,
    pub message: String,
}

/// What can go wrong while hashing, authenticating or authorizing.
#[derive(Debug, PartialEq)]
pub enum ErrorMessage {
    EmptyPassword,
    ExceededMaxPasswordLength(usize),
    InvalidHashFormat,
    HashingError,
    InvalidToken,
    ServerError,
    WrongCredentials,
    EmailExists,
    UserNoLongerExists,
    TokenNotProvided,
    PermissionDenied,
    UserNotAuthenticated,
}

impl ErrorMessage {
    /// The message shown to the user for this error.
    pub open spec fn text(self) -> Seq<char> {
        match self {
            ErrorMessage::EmptyPassword => "Password cannot be empty"@,
            ErrorMessage::ExceededMaxPasswordLength(length) => "Password cannot be longer than "@
                + decimal(length as nat) + " characters"@,
            ErrorMessage::InvalidHashFormat => "Invalid password hash format"@,
            ErrorMessage::HashingError => "An error occurred while hashing the password"@,
            ErrorMessage::InvalidToken => "Invalid token"@,
            ErrorMessage::ServerError => "An error occurred on the server"@,
            ErrorMessage::WrongCredentials => "Wrong credentials"@,
            ErrorMessage::EmailExists => "Email already exists"@,
            ErrorMessage::UserNoLongerExists => "User no longer exists"@,
            ErrorMessage::TokenNotProvided => "Token not provided"@,
            ErrorMessage::PermissionDenied => "Permission denied"@,
            ErrorMessage::UserNotAuthenticated => "User not authenticated"@,
        }
    }

    /// Renders the message of this error.
    pub fn to_str(&self) -> (s: String)
        ensures
            s@ == self.text(),
    {
        match self {
            ErrorMessage::EmptyPassword => String::from_str("Password cannot be empty"),
            ErrorMessage::ExceededMaxPasswordLength(length) => {
                let mut s = String::from_str("Password cannot be longer than ");
                let digits = decimal_string(*length);
                s.append(digits.as_str());
                s.append(" characters");
                s
            },
            ErrorMessage::InvalidHashFormat => String::from_str("Invalid password hash format"),
            ErrorMessage::HashingError => String::from_str(
                "An error occurred while hashing the password",
            ),
            ErrorMessage::InvalidToken => String::from_str("Invalid token"),
            ErrorMessage::ServerError => String::from_str("An error occurred on the server"),
            ErrorMessage::WrongCredentials => String::from_str("Wrong credentials"),
            ErrorMessage::EmailExists => String::from_str("Email already exists"),
            ErrorMessage::UserNoLongerExists => String::from_str("User no longer exists"),
            ErrorMessage::TokenNotProvided => String::from_str("Token not provided"),
            ErrorMessage::PermissionDenied => String::from_str("Permission denied"),
            ErrorMessage::UserNotAuthenticated => String::from_str("User not authenticated"),
        }
    }
}

/// The status of a request that was malformed.
pub const BAD_REQUEST: u16 = 400;

/// The status of a request that carries no valid credential.
pub const UNAUTHORIZED: u16 = 401;

/// The status of a request whose identity may not do what it asks.
pub const FORBIDDEN: u16 = 403;

/// The status of a request that collides with what is stored.
pub const CONFLICT: u16 = 409;

/// The status of a failure on the server's side.
pub const INTERNAL_SERVER_ERROR: u16 = 500;

impl ErrorMessage {
    /// Renders the message of this error, as `to_str` does.
    pub fn to_string(&self) -> (s: String)
        ensures
            s@ == self.text(),
    {
        self.to_str()
    }

    /// The status class under which this error reaches the client.
    pub open spec fn status_class(self) -> u16 {
        match self {
            ErrorMessage::EmptyPassword => BAD_REQUEST,
            ErrorMessage::ExceededMaxPasswordLength(_) => BAD_REQUEST,
            ErrorMessage::InvalidHashFormat => INTERNAL_SERVER_ERROR,
            ErrorMessage::HashingError => INTERNAL_SERVER_ERROR,
            ErrorMessage::InvalidToken => UNAUTHORIZED,
            ErrorMessage::ServerError => INTERNAL_SERVER_ERROR,
            ErrorMessage::WrongCredentials => BAD_REQUEST,
            ErrorMessage::EmailExists => CONFLICT,
            ErrorMessage::UserNoLongerExists => UNAUTHORIZED,
            ErrorMessage::TokenNotProvided => UNAUTHORIZED,
            ErrorMessage::PermissionDenied => FORBIDDEN,
            ErrorMessage::UserNotAuthenticated => UNAUTHORIZED,
        }
    }

    /// The status class under which this error reaches the client.
    pub fn status(&self) -> (code: u16)
        ensures
            code == self.status_class(),
    {
        match self {
            ErrorMessage::EmptyPassword => BAD_REQUEST,
            ErrorMessage::ExceededMaxPasswordLength(_) => BAD_REQUEST,
            ErrorMessage::InvalidHashFormat => INTERNAL_SERVER_ERROR,
            ErrorMessage::HashingError => INTERNAL_SERVER_ERROR,
            ErrorMessage::InvalidToken => UNAUTHORIZED,
            ErrorMessage::ServerError => INTERNAL_SERVER_ERROR,
            ErrorMessage::WrongCredentials => BAD_REQUEST,
            ErrorMessage::EmailExists => CONFLICT,
            ErrorMessage::UserNoLongerExists => UNAUTHORIZED,
            ErrorMessage::TokenNotProvided => UNAUTHORIZED,
            ErrorMessage::PermissionDenied => FORBIDDEN,
            ErrorMessage::UserNotAuthenticated => UNAUTHORIZED,
        }
    }
}

/// What `StatusCode` of the `http` crate displays for `code`: the number, a
/// space and the canonical reason phrase. It has a meaning for the codes
/// from 100 to 999.
pub uninterp spec fn status_line(code: u16) -> Seq<char>;

/// Calls `StatusCode::from_u16` and, on the status it gives, `to_string`.
///
/// `from_u16` takes the codes from 100 to 999 and no other; the text is
/// named.
#[verifier::external_body]
fn status_text(code: u16) -> (text: Option<String>)
    ensures
        text is Some <==> 100 <= code <= 999,
        text matches Some(line) ==> line@ == status_line(code),
{
    match StatusCode::from_u16(code) {
        Ok(status) => Some(status.to_string()),
        Err(_) => None,
    }
}

/// An error on its way to the client: a message and a status code.
#[derive(Debug, Clone)]
pub struct HttpError {
    pub message: String,
    pub status: u16,
}

impl View for HttpError {
    type V = (u16, Seq<char>);

    /// The status and the message.
    open spec fn view(&self) -> (u16, Seq<char>) {
        (self.status, self.message@)
    }
}

impl HttpError {
    /// The status part of the reply for `status`: the status line, or the
    /// bare number where the code is none that a status line exists for.
    pub open spec fn status_field(status: u16) -> Seq<char> {
        if 100 <= status <= 999 {
            status_line(status)
        } else {
            decimal(status as nat)
        }
    }

    /// An error with this message and this status.
    pub fn new(message: &str, status: u16) -> (e: HttpError)
        ensures
            e.message@ == message@,
            e.status == status,
    {
        HttpError { message: message.to_owned(), status }
    }

    /// An error of the class 500.
    pub fn server_error(message: &str) -> (e: HttpError)
        ensures
            e.message@ == message@,
            e.status == INTERNAL_SERVER_ERROR,
    {
        HttpError { message: message.to_owned(), status: INTERNAL_SERVER_ERROR }
    }

    /// An error of the class 400.
    pub fn bad_request(message: &str) -> (e: HttpError)
        ensures
            e.message@ == message@,
            e.status == BAD_REQUEST,
    {
        HttpError { message: message.to_owned(), status: BAD_REQUEST }
    }

    /// An error of the class 409.
    pub fn unquie_constraint_violation(message: &str) -> (e: HttpError)
        ensures
            e.message@ == message@,
            e.status == CONFLICT,
    {
        HttpError { message: message.to_owned(), status: CONFLICT }
    }

    /// An error of the class 401.
    pub fn unauthorized(message: &str) -> (e: HttpError)
        ensures
            e.message@ == message@,
            e.status == UNAUTHORIZED,
    {
        HttpError { message: message.to_owned(), status: UNAUTHORIZED }
    }

    /// The error that reaches the client for `kind`: its message under its
    /// status class.
    pub fn from_kind(kind: &ErrorMessage) -> (e: HttpError)
        ensures
            e.message@ == kind.text(),
            e.status == kind.status_class(),
    {
        HttpError { message: kind.to_str(), status: kind.status() }
    }

    /// The status part of a reply, given the status line where the code has
    /// one: that line, or else the bare number.
    pub fn status_label(line: Option<String>, status: u16) -> (label: String)
        ensures
            label@ == match line {
                Some(l) => l@,
                None => decimal(status as nat),
            },
    {
        match line {
            Some(l) => l,
            None => decimal_string(status as usize),
        }
    }

    /// The body of the reply that reports this error.
    pub fn error_response(&self) -> (body: ErrorResponse)
        ensures
            body.status@ == Self::status_field(self.status),
            body.message@ == self.message@,
    {
        let status = Self::status_label(status_text(self.status), self.status);
        ErrorResponse { status, message: self.message.clone() }
    }

    /// The line that describes this error in a log.
    pub fn describe(&self) -> (line: String)
        ensures
            line@ == "HttpError: message: "@ + self.message@ + ", status: "@ + Self::status_field(
                self.status,
            ),
    {
        let mut line = String::from_str("HttpError: message: ");
        line.append(self.message.as_str());
        line.append(", status: ");
        let status = Self::status_label(status_text(self.status), self.status);
        line.append(status.as_str());
        line
    }
}

} // verus!
