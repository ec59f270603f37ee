//! The one error type of a lookup, with a variant for each cause of failure.

use vstd::prelude::*;

verus! {

/// Why a lookup failed. Each cause has its own variant; where a collaborator
/// failed, the variant carries the message with which it reported the failure.
#[derive(Debug, PartialEq, Eq)]
pub enum Error {
    /// The title to look up was empty.
    QueryIsEmpty,
    /// The response was well-formed but named no complete article.
    NotFound,
    /// The request could not be carried out.
    Transport(String),
    /// The request's URL could not be formed.
    Url(String),
    /// The response body could not be read to its end.
    Io(String),
    /// The response body was not JSON.
    Decode(String),
}

/// What an [`Error`] holds, as mathematical values.
pub enum ErrorView {
    QueryIsEmpty,
    NotFound,
    Transport(Seq<char>),
    Url(Seq<char>),
    Io(Seq<char>),
    Decode(Seq<char>),
}

impl View for Error {
    type V = ErrorView;

    open spec fn view(&self) -> ErrorView {
        match self {
            Error::QueryIsEmpty => ErrorView::QueryIsEmpty,
            Error::NotFound => ErrorView::NotFound,
            Error::Transport(message) => ErrorView::Transport(message@),
            Error::Url(message) => ErrorView::Url(message@),
            Error::Io(message) => ErrorView::Io(message@),
            Error::Decode(message) => ErrorView::Decode(message@),
        }
    }
}

} // verus!
