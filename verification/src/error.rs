//! The failures that the bridge and the middleware factory report.

use vstd::prelude::*;

verus! {

/// Why an operation of this library failed.
#[derive(Clone, Debug, PartialEq, Eq)]
pub enum Error {
    /// The chain names no registrar.
    NotConfigured,
    /// The chain names a registrar, but not by a well-formed address.
    InvalidAddress,
    /// The contract call did not complete; holds the chain's diagnostic.
    ExecutionFailed(String),
    /// No middleware could be constructed; holds the reason.
    BuildFailed(String),
}

/// What an [`Error`] stands for: its kind, and the text it carries.
pub enum ErrorView {
    NotConfigured,
    InvalidAddress,
    ExecutionFailed(Seq<char>),
    BuildFailed(Seq<char>),
}

impl View for Error {
    type V = ErrorView;

    open spec fn view(&self) -> ErrorView {
        match *self {
            Error::NotConfigured => ErrorView::NotConfigured,
            Error::InvalidAddress => ErrorView::InvalidAddress,
            Error::ExecutionFailed(text) => ErrorView::ExecutionFailed(text@),
            Error::BuildFailed(text) => ErrorView::BuildFailed(text@),
        }
    }
}

/// The text shown when the chain names no registrar.
pub const REGISTRAR_MISSING: &'static str = "Registrar not defined.";

/// The text shown when the registrar's address is malformed.
pub const REGISTRAR_INVALID: &'static str = "Invalid registrar address.";

impl ErrorView {
    /// The text that an operator reads for this failure.
    pub open spec fn message(self) -> Seq<char> {
        match self {
            ErrorView::NotConfigured => REGISTRAR_MISSING@,
            ErrorView::InvalidAddress => REGISTRAR_INVALID@,
            ErrorView::ExecutionFailed(text) => text,
            ErrorView::BuildFailed(text) => text,
        }
    }
}

impl Error {
    /// The text that an operator reads for this failure: a fixed sentence
    /// for the two registrar failures, the carried text for the others.
    pub fn message(&self) -> (r: String)
        ensures
            r@ == self@.message(),
    {
        match self {
            Error::NotConfigured => REGISTRAR_MISSING.to_owned(),
            Error::InvalidAddress => REGISTRAR_INVALID.to_owned(),
            Error::ExecutionFailed(text) => text.clone(),
            Error::BuildFailed(text) => text.clone(),
        }
    }
}

} // verus!
