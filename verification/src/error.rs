//! Error values: the server's own error record, and the client-side
//! failure taxonomy.

use vstd::prelude::*;

verus! {

/// Specification-level content of an [`Error`].
pub struct ErrorView {
    pub error: Seq<char>,
    pub error_code: u8,
}

/// A well-formed error reported by the server itself: a description and
/// a numeric code. This is the one expected, caller-recoverable failure;
/// everything else in [`ClientError`] is an infrastructure failure.
#[derive(Clone, Debug)]
pub struct Error {
    error: String,
    error_code: u8,
}

impl View for Error {
    type V = ErrorView;

    closed spec fn view(&self) -> ErrorView {
        ErrorView { error: self.error@, error_code: self.error_code }
    }
}

impl Error {
    /// Bundle a server-reported description and code.
    pub fn new(error: String, error_code: u8) -> (r: Error)
        ensures
            r@.error == error@,
            r@.error_code == error_code,
    {
        Error { error, error_code }
    }

    /// The description of the error given by the API.
    pub fn error(&self) -> (r: &str)
        ensures
            r@ == self@.error,
    {
        self.error.as_str()
    }

    /// The error code given by the API.
    pub fn error_code(&self) -> (r: &u8)
        ensures
            *r == self@.error_code,
    {
        &self.error_code
    }
}

/// Specification-level content of a [`ClientError`].
pub enum ClientErrorView {
    AuthFailure,
    TransportFailure(Seq<char>),
    ApiError(ErrorView),
    MalformedResponse(Seq<char>, Seq<char>),
}

/// Everything a call can fail with, as distinct, inspectable values.
///
/// `AuthFailure`: the token handshake did not yield a usable token.
/// `TransportFailure`: the network layer failed; carries its description.
/// `ApiError`: the server answered with its error record.
/// `MalformedResponse`: the response body matched neither the results
/// schema nor the error schema; carries one diagnostic for each of the
/// two failed attempts.
#[derive(Clone, Debug)]
pub enum ClientError {
    AuthFailure,
    TransportFailure(String),
    ApiError(Error),
    MalformedResponse(String, String),
}

impl View for ClientError {
    type V = ClientErrorView;

    open spec fn view(&self) -> ClientErrorView {
        match self {
            ClientError::AuthFailure => ClientErrorView::AuthFailure,
            ClientError::TransportFailure(s) => ClientErrorView::TransportFailure(s@),
            ClientError::ApiError(e) => ClientErrorView::ApiError(e@),
            ClientError::MalformedResponse(a, b) => ClientErrorView::MalformedResponse(a@, b@),
        }
    }
}

} // verus!
