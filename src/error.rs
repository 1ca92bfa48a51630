//! Errors reported by the library.

use vstd::prelude::*;
use vstd::string::StringExecFns;

verus! {

/// What went wrong.
#[derive(Debug, PartialEq, Eq)]
pub enum ErrorKind {
    /// The response body did not decode; carries the diagnostic text.
    MessageParsingError(String),
    /// The HTTP exchange failed.
    RequestError(String),
    /// The server redirected too many times, or in a loop.
    TooManyRedirects,
    /// A transport failure that fits no other kind.
    UnexpectedError,
    /// A request was built without any message.
    MessageCountError,
    /// An email address does not follow the address grammar; carries the address.
    InvalidAddress(String),
}

/// The error type of the library: a kind, possibly with detail text.
#[derive(Debug, PartialEq, Eq)]
pub struct Error {
    pub kind: ErrorKind,
}

pub type Result<T> = core::result::Result<T, Error>;

impl Error {
    pub fn new(kind: ErrorKind) -> (r: Error)
        ensures
            r.kind == kind,
    {
        Error { kind }
    }

    /// The kind of this error.
    pub fn kind(&self) -> (r: &ErrorKind)
        ensures
            *r == self.kind,
    {
        &self.kind
    }
}

/// The text by which an error of the given kind describes itself.
pub open spec fn kind_text(kind: ErrorKind) -> Seq<char> {
    match kind {
        ErrorKind::MessageParsingError(d) => "Error parsing message "@ + d@,
        ErrorKind::RequestError(d) => d@,
        ErrorKind::TooManyRedirects => "Server redirecting too many times or making loop."@,
        ErrorKind::UnexpectedError => "Unexpected error. Please file a bug at: https://github.com/brizental/socketlabs-rs/issues"@,
        ErrorKind::MessageCountError => "A request needs at least one message."@,
        ErrorKind::InvalidAddress(a) => "Invalid email address: "@ + a@,
    }
}

impl ErrorKind {
    /// What went wrong, in words.
    pub fn to_text(&self) -> (r: String)
        ensures
            r@ == kind_text(*self),
    {
        match self {
            ErrorKind::MessageParsingError(d) => {
                let mut out = String::from_str("Error parsing message ");
                out.append(d.as_str());
                out
            },
            ErrorKind::RequestError(d) => d.clone(),
            ErrorKind::TooManyRedirects => String::from_str(
                "Server redirecting too many times or making loop.",
            ),
            ErrorKind::UnexpectedError => String::from_str(
                "Unexpected error. Please file a bug at: https://github.com/brizental/socketlabs-rs/issues",
            ),
            ErrorKind::MessageCountError => String::from_str("A request needs at least one message."),
            ErrorKind::InvalidAddress(a) => {
                let mut out = String::from_str("Invalid email address: ");
                out.append(a.as_str());
                out
            },
        }
    }
}

impl Error {
    /// What went wrong, in words.
    pub fn to_text(&self) -> (r: String)
        ensures
            r@ == kind_text(self.kind),
    {
        self.kind.to_text()
    }
}

/// The detail carried by a failed HTTP exchange that names a URL.
pub open spec fn request_failure_text() -> Seq<char> {
    "Problem making request to SocketLabs."@
}

/// Sorts a failed HTTP exchange into an error kind, from what the transport
/// reports of it: a failure at the HTTP level that names a URL is a request
/// error, a redirect loop is its own kind, and everything else is unexpected.
pub fn classify_transport_failure(
    is_http: bool,
    has_url: bool,
    is_serialization: bool,
    is_redirect: bool,
) -> (r: ErrorKind)
    ensures
        is_http && has_url ==> (r matches ErrorKind::RequestError(d) && d@ == request_failure_text()),
        is_http && !has_url ==> r == ErrorKind::UnexpectedError,
        !is_http && is_serialization ==> r == ErrorKind::UnexpectedError,
        !is_http && !is_serialization && is_redirect ==> r == ErrorKind::TooManyRedirects,
        !is_http && !is_serialization && !is_redirect ==> r == ErrorKind::UnexpectedError,
{
    if is_http {
        if has_url {
            ErrorKind::RequestError(String::from_str("Problem making request to SocketLabs."))
        } else {
            ErrorKind::UnexpectedError
        }
    } else if is_serialization {
        ErrorKind::UnexpectedError
    } else if is_redirect {
        ErrorKind::TooManyRedirects
    } else {
        ErrorKind::UnexpectedError
    }
}

} // verus!
