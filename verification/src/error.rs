//! The failures that this crate itself reports.

use vstd::prelude::*;

verus! {

/// A failure reported by this crate. None of them is worth a second try: the
/// caller has to change the input or the platform.
#[derive(Debug, PartialEq, Eq)]
pub enum Error {
    /// The keyword names no export format, or this platform cannot export at
    /// all. Holds the keyword.
    UnsupportedFormat(String),
    /// An export was started on a platform that cannot export. Holds the
    /// command that the user tried to run.
    SubcommandNotSupported(String),
    /// The string is not the string form of any package identifier. Holds the
    /// string.
    MalformedIdentifier(String),
}

/// The mathematical value of an [`Error`].
pub enum ErrorView {
    UnsupportedFormat(Seq<char>),
    SubcommandNotSupported(Seq<char>),
    MalformedIdentifier(Seq<char>),
}

impl View for Error {
    type V = ErrorView;

    open spec fn view(&self) -> ErrorView {
        match self {
            Error::UnsupportedFormat(s) => ErrorView::UnsupportedFormat(s@),
            Error::SubcommandNotSupported(s) => ErrorView::SubcommandNotSupported(s@),
            Error::MalformedIdentifier(s) => ErrorView::MalformedIdentifier(s@),
        }
    }
}

} // verus!
