//! The failures the tool reports.

use vstd::prelude::*;
use vstd::string::*;

verus! {

/// Everything that can go wrong while serving one command line.
#[derive(Debug, Clone, PartialEq, Eq)]
pub enum Error {
    /// The HTTP exchange failed; the payload is the transport's own account.
    Reqwest(String),
    /// The `ollama` binary could not be started.
    Io(String),
    /// A body was not the JSON that was expected.
    Serde(String),
    /// The `ollama` binary ran and reported failure.
    Command(String),
}

/// An [`Error`] with its text as a sequence of characters.
pub enum ErrorView {
    Reqwest(Seq<char>),
    Io(Seq<char>),
    Serde(Seq<char>),
    Command(Seq<char>),
}

impl View for Error {
    type V = ErrorView;

    open spec fn view(&self) -> ErrorView {
        match self {
            Error::Reqwest(m) => ErrorView::Reqwest(m@),
            Error::Io(m) => ErrorView::Io(m@),
            Error::Serde(m) => ErrorView::Serde(m@),
            Error::Command(m) => ErrorView::Command(m@),
        }
    }
}

impl ErrorView {
    /// The line shown to the user for this failure.
    pub open spec fn message(self) -> Seq<char> {
        match self {
            ErrorView::Reqwest(m) => "HTTP request failed: "@ + m,
            ErrorView::Io(m) => "IO error: "@ + m,
            ErrorView::Serde(m) => "JSON parsing error: "@ + m,
            ErrorView::Command(m) => "Ollama command failed: "@ + m,
        }
    }
}

impl Error {
    /// The line shown to the user for this failure.
    pub fn message(&self) -> (r: String)
        ensures
            r@ == self@.message(),
    {
        match self {
            Error::Reqwest(m) => String::from_str("HTTP request failed: ").concat(m.as_str()),
            Error::Io(m) => String::from_str("IO error: ").concat(m.as_str()),
            Error::Serde(m) => String::from_str("JSON parsing error: ").concat(m.as_str()),
            Error::Command(m) => String::from_str("Ollama command failed: ").concat(m.as_str()),
        }
    }
}

} // verus!
