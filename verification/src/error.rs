//! Errors of the SDK.
use vstd::prelude::*;

verus! {

/// Session expired error code from the iLink API.
pub const SESSION_EXPIRED_ERRCODE: i32 = -14;

/// Everything that can go wrong in the SDK. Messages of outside errors are
/// carried as text.
#[derive(Debug)]
pub enum Error {
    Http(HttpError),
    Api { ret: i32, errcode: Option<i32>, message: String },
    SessionExpired,
    Cdn { message: String, status_code: Option<u16> },
    Aes(String),
    Io(String),
    MissingContextToken,
    NotConfigured,
    LoginTimeout,
    Json(String),
    QrExpired,
    Other(String),
}

/// Failures of the HTTP transport.
#[derive(Debug)]
pub enum HttpError {
    Request(String),
    Status { status: u16, body: String },
    /// The request timed out after the given number of milliseconds.
    Timeout(u64),
    Other(String),
}

impl Error {
    /// A CDN error that carries a 4xx status: a client error that retrying
    /// will not fix.
    pub open spec fn spec_is_cdn_4xx(&self) -> bool {
        match self {
            Error::Cdn { status_code: Some(code), .. } => 400 <= *code && *code < 500,
            _ => false,
        }
    }

    /// A CDN error is a client error exactly when it carries a status from
    /// 400 to 499; no other error is.
    pub proof fn lemma_cdn_4xx(&self)
        ensures
            self.spec_is_cdn_4xx() <==> (self matches Error::Cdn { status_code: Some(code), .. } && 400 <= *code
                && *code <= 499),
    {
    }

    pub fn is_cdn_4xx_error(&self) -> (r: bool)
        ensures
            r == self.spec_is_cdn_4xx(),
    {
        match self {
            Error::Cdn { status_code: Some(code), .. } => 400 <= *code && *code < 500,
            _ => false,
        }
    }

    /// The error is an HTTP timeout.
    pub fn is_timeout(&self) -> (r: bool)
        ensures
            r == (self matches Error::Http(HttpError::Timeout(_))),
    {
        match self {
            Error::Http(HttpError::Timeout(_)) => true,
            _ => false,
        }
    }
}

} // verus!
