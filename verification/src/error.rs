//! Errors of the library.

use vstd::prelude::*;

verus! {

/// What can go wrong. Errors of other libraries and of the operating system
/// are held as their messages.
#[derive(Debug, Clone)]
pub enum Error {
    InvalidConfig(String),
    Http(String),
    Json(String),
    Io { path: String, source: String },
    Histogram(String),
    NotImplemented(String),
    RunNotFound(String),
    Storage(String),
    Other(String),
}

impl Error {
    /// The text before the details.
    pub open spec fn heading(self) -> Seq<char> {
        match self {
            Error::InvalidConfig(_) => "invalid configuration: "@,
            Error::Http(_) => "HTTP error: "@,
            Error::Json(_) => "JSON error: "@,
            Error::Io { .. } => "I/O error at "@,
            Error::Histogram(_) => "histogram error: "@,
            Error::NotImplemented(_) => "operation not implemented in M1: "@,
            Error::RunNotFound(_) => "run not found: "@,
            Error::Storage(_) => "storage error: "@,
            Error::Other(_) => "other: "@,
        }
    }

    /// The details.
    pub open spec fn details(self) -> Seq<char> {
        match self {
            Error::InvalidConfig(s) => s@,
            Error::Http(s) => s@,
            Error::Json(s) => s@,
            Error::Io { path, source } => path@ + ": "@ + source@,
            Error::Histogram(s) => s@,
            Error::NotImplemented(s) => s@,
            Error::RunNotFound(s) => s@,
            Error::Storage(s) => s@,
            Error::Other(s) => s@,
        }
    }

    /// The message to show.
    pub fn message(&self) -> (r: String)
        ensures
            r@ == self.heading() + self.details(),
    {
        let mut out = String::new();
        match self {
            Error::InvalidConfig(s) => {
                out.push_str("invalid configuration: ");
                out.push_str(s.as_str());
            },
            Error::Http(s) => {
                out.push_str("HTTP error: ");
                out.push_str(s.as_str());
            },
            Error::Json(s) => {
                out.push_str("JSON error: ");
                out.push_str(s.as_str());
            },
            Error::Io { path, source } => {
                out.push_str("I/O error at ");
                out.push_str(path.as_str());
                out.push_str(": ");
                out.push_str(source.as_str());
            },
            Error::Histogram(s) => {
                out.push_str("histogram error: ");
                out.push_str(s.as_str());
            },
            Error::NotImplemented(s) => {
                out.push_str("operation not implemented in M1: ");
                out.push_str(s.as_str());
            },
            Error::RunNotFound(s) => {
                out.push_str("run not found: ");
                out.push_str(s.as_str());
            },
            Error::Storage(s) => {
                out.push_str("storage error: ");
                out.push_str(s.as_str());
            },
            Error::Other(s) => {
                out.push_str("other: ");
                out.push_str(s.as_str());
            },
        }
        proof {
            assert(out@ =~= self.heading() + self.details());
        }
        out
    }

    /// An error of the operating system at a path.
    pub fn io_at(path: String, source: String) -> (r: Error)
        ensures
            r == (Error::Io { path, source }),
    {
        Error::Io { path, source }
    }
}

/// An error is told by what went wrong and by its own text, and an error of the
/// file system names the path before the cause.
pub proof fn errors_name_their_cause(text: String, path: String)
    ensures
        Error::InvalidConfig(text).heading() == "invalid configuration: "@,
        Error::InvalidConfig(text).details() == text@,
        Error::Http(text).heading() == "HTTP error: "@,
        Error::Http(text).details() == text@,
        Error::Json(text).heading() == "JSON error: "@,
        Error::Json(text).details() == text@,
        Error::RunNotFound(text).heading() == "run not found: "@,
        Error::RunNotFound(text).details() == text@,
        Error::Storage(text).heading() == "storage error: "@,
        Error::Storage(text).details() == text@,
        (Error::Io { path, source: text }).details() == path@ + ": "@ + text@,
{
}

} // verus!
