//! The error type of the service, the text each error displays and the
//! HTTP status it is answered with.

use vstd::prelude::*;

verus! {

/// A validation failure of a model, with its code and message.
#[derive(Clone, Debug, PartialEq, Eq)]
pub struct ModelValidation {
    pub code: String,
    pub message: Option<String>,
}

/// The errors of the service. The errors of outside services that the
/// service only reports carry the text they display.
#[derive(Debug)]
pub enum Error {
    /// An error with the backtrace taken where it arose.
    WithBacktrace { inner: Box<Error>, backtrace: String },
    Message(String),
    TaskNotFound(String),
    JSON(serde_json::Error),
    EnvVar(String),
    Smtp(String),
    IO(std::io::Error),
    SqlxError(String),
    ParseAddress(String),
    Hash(String),
    Unauthorized(String),
    NotFound,
    BadRequest(String),
    InternalServerError,
    InvalidHeaderValue(String),
    InvalidHeaderName(String),
    InvalidMethod(String),
    StatusError(String),
    OpendalError(String),
    PasswordHashError(argon2::password_hash::Error),
    JwtError(String),
    Any(String),
    EntityAlreadyExists,
    EntityNotFound,
    ModelValidation { errors: ModelValidation },
    DbErr(String),
    CSRFTokenMismatch,
    Reqwest(String),
    MissingCsrfToken,
    /// This happens when user cancels authorization
    MissingAuthorizationCode,
    MissingAuthorizationCodeAndCsrfToken,
    ParseError(url::ParseError),
    SalvoHttpParseError(String),
    ReqwestError(String),
}

/// The HTTP status that answers an error.
pub open spec fn status_of(e: Error) -> u16 {
    match e {
        Error::TaskNotFound(_) | Error::NotFound | Error::EntityNotFound => 404,
        Error::Unauthorized(_) => 401,
        Error::BadRequest(_) | Error::InvalidHeaderValue(_) | Error::InvalidHeaderName(_)
        | Error::InvalidMethod(_) => 400,
        _ => 500,
    }
}

/// The text an error displays, where it is made of plain values: `None`
/// where it comes from the display of an outside error or of a
/// validation record.
pub open spec fn error_text(e: Error) -> Option<Seq<char>>
    decreases e,
{
    match e {
        Error::WithBacktrace { inner, backtrace } => match error_text(*inner) {
            Some(t) => Some(t + "\n"@ + backtrace@),
            None => None,
        },
        Error::Message(s) => Some(s@),
        Error::TaskNotFound(s) => Some("task not found: '"@ + s@ + "'"@),
        Error::EnvVar(s) => Some(s@),
        Error::Smtp(s) => Some(s@),
        Error::SqlxError(s) => Some(s@),
        Error::ParseAddress(s) => Some(s@),
        Error::Hash(s) => Some(s@),
        Error::Unauthorized(s) => Some(s@),
        Error::NotFound => Some("not found"@),
        Error::BadRequest(s) => Some(s@),
        Error::InternalServerError => Some("internal server error"@),
        Error::InvalidHeaderValue(s) => Some(s@),
        Error::InvalidHeaderName(s) => Some(s@),
        Error::InvalidMethod(s) => Some(s@),
        Error::StatusError(s) => Some(s@),
        Error::OpendalError(s) => Some(s@),
        Error::JwtError(s) => Some(s@),
        Error::Any(s) => Some(s@),
        Error::EntityAlreadyExists => Some("Entity already exists"@),
        Error::EntityNotFound => Some("Entity not found"@),
        Error::DbErr(s) => Some(s@),
        Error::CSRFTokenMismatch => Some("CsrfToken supplied does not match"@),
        Error::Reqwest(s) => Some("Request Error: `"@ + s@ + "`"@),
        Error::MissingCsrfToken => Some("CsrfToken is missing"@),
        Error::MissingAuthorizationCode => Some("Authorization Code is missing"@),
        Error::MissingAuthorizationCodeAndCsrfToken => Some(
            "Authorization Code and CsrfToken are missing"@,
        ),
        Error::SalvoHttpParseError(s) => Some("Parse Error: "@ + s@),
        Error::ReqwestError(s) => Some(s@),
        _ => None,
    }
}

/// The display of a JSON error.
///
/// Trusted: calls `ToString::to_string` on a `serde_json::Error`; nothing
/// is claimed of the text.
#[verifier::external_body]
fn json_error_text(e: &serde_json::Error) -> String {
    e.to_string()
}

/// The display of an input/output error.
///
/// Trusted: calls `ToString::to_string` on a `std::io::Error`; nothing is
/// claimed of the text.
#[verifier::external_body]
fn io_error_text(e: &std::io::Error) -> String {
    e.to_string()
}

/// The display of a password hashing error.
///
/// Trusted: calls `ToString::to_string` on an `argon2::password_hash::Error`;
/// nothing is claimed of the text.
#[verifier::external_body]
fn password_hash_error_text(e: &argon2::password_hash::Error) -> String {
    e.to_string()
}

/// The display of a URL parsing error.
///
/// Trusted: calls `ToString::to_string` on a `url::ParseError`; nothing is
/// claimed of the text.
#[verifier::external_body]
fn url_error_text(e: &url::ParseError) -> String {
    e.to_string()
}

/// The debug form of a validation record.
///
/// Trusted: formats the record with `format!("{:?}", ..)`, through the
/// derived `Debug`; nothing is claimed of the text.
#[verifier::external_body]
fn validation_debug_text(v: &ModelValidation) -> String {
    format!("{:?}", v)
}

impl Error {
    /// An error carrying the message `s`.
    pub fn string(s: &str) -> (e: Error)
        ensures
            e is Message,
            e->Message_0@ == s@,
    {
        Error::Message(String::from_str(s))
    }

    /// The text the error displays, which is the brief of the answer.
    pub fn to_string(&self) -> (t: String)
        ensures
            error_text(*self) is Some ==> t@ == error_text(*self)->0,
            *self is ParseError ==> t@.len() >= 13 && t@.take(13) == "Parse Error: "@,
        decreases self,
    {
        match self {
            Error::WithBacktrace { inner, backtrace } => {
                let t = inner.to_string();
                let t = crate::text::concat_str(t.as_str(), "\n");
                crate::text::concat_str(t.as_str(), backtrace.as_str())
            },
            Error::Message(s) => s.clone(),
            Error::TaskNotFound(s) => {
                let t = crate::text::concat_str("task not found: '", s.as_str());
                crate::text::concat_str(t.as_str(), "'")
            },
            Error::JSON(e) => json_error_text(e),
            Error::EnvVar(s) => s.clone(),
            Error::Smtp(s) => s.clone(),
            Error::IO(e) => io_error_text(e),
            Error::SqlxError(s) => s.clone(),
            Error::ParseAddress(s) => s.clone(),
            Error::Hash(s) => s.clone(),
            Error::Unauthorized(s) => s.clone(),
            Error::NotFound => String::from_str("not found"),
            Error::BadRequest(s) => s.clone(),
            Error::InternalServerError => String::from_str("internal server error"),
            Error::InvalidHeaderValue(s) => s.clone(),
            Error::InvalidHeaderName(s) => s.clone(),
            Error::InvalidMethod(s) => s.clone(),
            Error::StatusError(s) => s.clone(),
            Error::OpendalError(s) => s.clone(),
            Error::PasswordHashError(e) => password_hash_error_text(e),
            Error::JwtError(s) => s.clone(),
            Error::Any(s) => s.clone(),
            Error::EntityAlreadyExists => String::from_str("Entity already exists"),
            Error::EntityNotFound => String::from_str("Entity not found"),
            Error::ModelValidation { errors } => validation_debug_text(errors),
            Error::DbErr(s) => s.clone(),
            Error::CSRFTokenMismatch => String::from_str("CsrfToken supplied does not match"),
            Error::Reqwest(s) => {
                let t = crate::text::concat_str("Request Error: `", s.as_str());
                crate::text::concat_str(t.as_str(), "`")
            },
            Error::MissingCsrfToken => String::from_str("CsrfToken is missing"),
            Error::MissingAuthorizationCode => String::from_str("Authorization Code is missing"),
            Error::MissingAuthorizationCodeAndCsrfToken => String::from_str(
                "Authorization Code and CsrfToken are missing",
            ),
            Error::ParseError(e) => {
                let inner = url_error_text(e);
                let t = crate::text::concat_str("Parse Error: ", inner.as_str());
                proof {
                    reveal_strlit("Parse Error: ");
                    assert(t@.take(13) =~= "Parse Error: "@);
                }
                t
            },
            Error::SalvoHttpParseError(s) => crate::text::concat_str("Parse Error: ", s.as_str()),
            Error::ReqwestError(s) => s.clone(),
        }
    }

    /// The answer to this error: its HTTP status and, as the brief, the
    /// text it displays.
    pub fn answer(&self) -> (a: (u16, String))
        ensures
            a.0 == status_of(*self),
            error_text(*self) is Some ==> a.1@ == error_text(*self)->0,
    {
        (self.status_code(), self.to_string())
    }

    /// The HTTP status that answers this error: 404 for the "not found"
    /// errors, 401 for `Unauthorized`, 400 for `BadRequest` and the invalid
    /// header and method errors, 500 for all others (an error with a
    /// backtrace included, whatever it wraps).
    pub fn status_code(&self) -> (code: u16)
        ensures
            code == status_of(*self),
            code == 404 <==> (*self is TaskNotFound || *self is NotFound || *self is EntityNotFound),
            code == 401 <==> *self is Unauthorized,
            code == 400 <==> (*self is BadRequest || *self is InvalidHeaderValue
                || *self is InvalidHeaderName || *self is InvalidMethod),
            code == 500 <==> !(*self is TaskNotFound || *self is NotFound || *self is EntityNotFound
                || *self is Unauthorized || *self is BadRequest || *self is InvalidHeaderValue
                || *self is InvalidHeaderName || *self is InvalidMethod),
    {
        match self {
            Error::WithBacktrace { .. } => 500,
            Error::TaskNotFound(_) => 404,
            Error::Unauthorized(_) => 401,
            Error::NotFound => 404,
            Error::BadRequest(_) => 400,
            Error::InvalidHeaderValue(_) => 400,
            Error::InvalidHeaderName(_) => 400,
            Error::InvalidMethod(_) => 400,
            Error::EntityNotFound => 404,
            _ => 500,
        }
    }
}

impl From<argon2::password_hash::Error> for Error {
    fn from(e: argon2::password_hash::Error) -> (r: Error) {
        Error::PasswordHashError(e)
    }
}

impl vstd::std_specs::convert::FromSpecImpl<argon2::password_hash::Error> for Error {
    open spec fn obeys_from_spec() -> bool {
        true
    }

    open spec fn from_spec(e: argon2::password_hash::Error) -> Error {
        Error::PasswordHashError(e)
    }
}

} // verus!
