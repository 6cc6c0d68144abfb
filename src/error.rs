//! The gateway's errors, and what a client is shown of each.

use vstd::prelude::*;

verus! {

/// Everything that can go wrong while serving a request. The text a
/// variant carries is for the server's own logs unless
/// [`AppError::response_parts`] says it is shown.
#[derive(Clone, Debug)]
pub enum AppError {
    /// Bad credentials, or a missing, malformed, forged or expired bearer
    /// credential.
    Unauthorized,
    /// The source is banned; the text says when to try again.
    TooManyRequests(String),
    InternalServerError(String),
    /// The upstream controller could not be reached or answered nonsense.
    ZeroTierError(String),
    ConfigError(String),
    IoError(String),
    /// A request body that is not the JSON expected.
    JsonError(String),
    /// The HTTP client failed while talking to the upstream.
    ReqwestError(String),
}

/// The HTTP status of each error.
pub open spec fn status_of(e: AppError) -> u16 {
    match e {
        AppError::Unauthorized => 401,
        AppError::TooManyRequests(_) => 429,
        AppError::InternalServerError(_) => 500,
        AppError::ZeroTierError(_) => 502,
        AppError::ConfigError(_) => 500,
        AppError::IoError(_) => 500,
        AppError::JsonError(_) => 400,
        AppError::ReqwestError(_) => 502,
    }
}

/// The text a client is shown for each error: the retry advice of a ban and
/// the parser's complaint about a body are shown, and for every other error
/// only a fixed text, so that no internal detail leaves the server.
pub open spec fn client_message(e: AppError) -> Seq<char> {
    match e {
        AppError::Unauthorized => "Unauthorized"@,
        AppError::TooManyRequests(m) => m@,
        AppError::JsonError(m) => m@,
        AppError::ZeroTierError(_) => "Bad gateway"@,
        AppError::ReqwestError(_) => "Bad gateway"@,
        _ => "Internal server error"@,
    }
}

impl AppError {
    /// The status code and the text of the response that reports this
    /// error.
    pub fn response_parts(&self) -> (r: (u16, String))
        ensures
            r.0 == status_of(*self),
            r.1@ == client_message(*self),
    {
        match self {
            AppError::Unauthorized => (401, "Unauthorized".to_owned()),
            AppError::TooManyRequests(m) => (429, m.clone()),
            AppError::InternalServerError(_) => (500, "Internal server error".to_owned()),
            AppError::ZeroTierError(_) => (502, "Bad gateway".to_owned()),
            AppError::ConfigError(_) => (500, "Internal server error".to_owned()),
            AppError::IoError(_) => (500, "Internal server error".to_owned()),
            AppError::JsonError(m) => (400, m.clone()),
            AppError::ReqwestError(_) => (502, "Bad gateway".to_owned()),
        }
    }
}

} // verus!
