//! The error type of this crate.

use vstd::prelude::*;
use vstd::string::*;

verus! {

/// What can go wrong while a command is resolved or carried out. Failures
/// that arise outside this crate are carried by their message.
#[derive(Clone, Debug, PartialEq, Eq)]
pub enum Error {
    /// An I/O failure.
    Io(String),
    /// A JSON document could not be encoded or decoded.
    Json(String),
    /// The store of saved settings failed.
    Storage(String),
    /// A protocol-level or usage failure.
    Other(String),
    /// The line editor failed.
    Readline(String),
    /// The protocol client failed.
    MpcClient(String),
    /// Input from the operator does not have the expected form.
    Format(String),
    /// A failure that is not expected to be handled by the operator.
    Internal(String),
}

/// The class of a failure.
#[derive(Clone, Copy, Debug, PartialEq, Eq, Structural)]
pub enum ErrorKind {
    Io,
    Json,
    Storage,
    Other,
    Readline,
    MpcClient,
    Format,
    Internal,
}

/// Mathematical content of an [`Error`]: its class and the text it
/// carries.
pub struct ErrorView {
    pub kind: ErrorKind,
    pub detail: Seq<char>,
}

impl View for Error {
    type V = ErrorView;

    open spec fn view(&self) -> ErrorView {
        match self {
            Error::Io(s) => ErrorView { kind: ErrorKind::Io, detail: s@ },
            Error::Json(s) => ErrorView { kind: ErrorKind::Json, detail: s@ },
            Error::Storage(s) => ErrorView { kind: ErrorKind::Storage, detail: s@ },
            Error::Other(s) => ErrorView { kind: ErrorKind::Other, detail: s@ },
            Error::Readline(s) => ErrorView { kind: ErrorKind::Readline, detail: s@ },
            Error::MpcClient(s) => ErrorView { kind: ErrorKind::MpcClient, detail: s@ },
            Error::Format(s) => ErrorView { kind: ErrorKind::Format, detail: s@ },
            Error::Internal(s) => ErrorView { kind: ErrorKind::Internal, detail: s@ },
        }
    }
}

/// A protocol-level or usage failure with the given text.
pub open spec fn usage_failure(detail: Seq<char>) -> ErrorView {
    ErrorView { kind: ErrorKind::Other, detail }
}

/// A failure of form with the given text.
pub open spec fn format_failure(detail: Seq<char>) -> ErrorView {
    ErrorView { kind: ErrorKind::Format, detail }
}

/// What the one-line message of a failure of class `kind` starts with.
pub open spec fn prefix(kind: ErrorKind) -> Seq<char> {
    match kind {
        ErrorKind::Io => "I/O error: "@,
        ErrorKind::Json => "JSON error: "@,
        ErrorKind::Storage => "Storage error: "@,
        ErrorKind::Other => "MCP error: "@,
        ErrorKind::Readline => "Readline error: "@,
        ErrorKind::MpcClient => "MCP client error: "@,
        ErrorKind::Format => "Invalid format: "@,
        ErrorKind::Internal => "MCP error: "@,
    }
}

/// The view of a result: that of its value, or that of its error.
pub open spec fn result_view<T: View, E: View>(r: Result<T, E>) -> Result<T::V, E::V> {
    match r {
        Ok(t) => Ok(t@),
        Err(e) => Err(e@),
    }
}

impl Error {
    /// The class of the failure.
    pub fn kind(&self) -> (k: ErrorKind)
        ensures
            k == self@.kind,
    {
        match self {
            Error::Io(_) => ErrorKind::Io,
            Error::Json(_) => ErrorKind::Json,
            Error::Storage(_) => ErrorKind::Storage,
            Error::Other(_) => ErrorKind::Other,
            Error::Readline(_) => ErrorKind::Readline,
            Error::MpcClient(_) => ErrorKind::MpcClient,
            Error::Format(_) => ErrorKind::Format,
            Error::Internal(_) => ErrorKind::Internal,
        }
    }

    /// The failure as one human-readable line: the prefix of its class,
    /// then the text it carries.
    pub fn message(&self) -> (r: String)
        ensures
            r@ == prefix(self@.kind) + self@.detail,
    {
        let (prefix, detail): (&str, &String) = match self {
            Error::Io(s) => ("I/O error: ", s),
            Error::Json(s) => ("JSON error: ", s),
            Error::Storage(s) => ("Storage error: ", s),
            Error::Other(s) => ("MCP error: ", s),
            Error::Readline(s) => ("Readline error: ", s),
            Error::MpcClient(s) => ("MCP client error: ", s),
            Error::Format(s) => ("Invalid format: ", s),
            Error::Internal(s) => ("MCP error: ", s),
        };
        let mut r = prefix.to_owned();
        r.append(detail.as_str());
        r
    }
}

impl From<String> for Error {
    fn from(s: String) -> (e: Error) {
        Error::Other(s)
    }
}

impl vstd::std_specs::convert::FromSpecImpl<String> for Error {
    open spec fn obeys_from_spec() -> bool {
        true
    }

    open spec fn from_spec(s: String) -> Error {
        Error::Other(s)
    }
}

} // verus!
