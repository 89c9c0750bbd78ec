//! What can go wrong between the network calls.

use crate::decimal::IntErrorKind;
use vstd::prelude::*;

verus! {

/// The error type of the crate `url`, of which nothing is known here but
/// that `Url::parse` returns it.
#[verifier::external_type_specification]
#[verifier::external_body]
pub struct ExUrlParseError(url::ParseError);

/// A failure of one of the library's operations.
#[derive(Debug)]
pub enum Error {
    /// The catalog reported a failure; the text is its message.
    WallpaperError(String),
    /// The catalog reported success and left out what was asked for.
    MissingPayload,
    /// The count that the catalog sent is not a number.
    IntParse(IntErrorKind),
    /// The listing has no wallpaper at the drawn position.
    NoSuchEntry,
    /// The address of the image is not a URL.
    UrlParse(url::ParseError),
    /// The address of the image is a URL without path segments.
    NoPathSegments,
}

/// An [`Error`] as contracts speak of it: texts by their characters, and
/// without the detail that the URL parser gives.
pub enum ErrorView {
    WallpaperError(Seq<char>),
    MissingPayload,
    IntParse(IntErrorKind),
    NoSuchEntry,
    UrlParse,
    NoPathSegments,
}

impl View for Error {
    type V = ErrorView;

    open spec fn view(&self) -> ErrorView {
        match self {
            Error::WallpaperError(message) => ErrorView::WallpaperError(message@),
            Error::MissingPayload => ErrorView::MissingPayload,
            Error::IntParse(kind) => ErrorView::IntParse(*kind),
            Error::NoSuchEntry => ErrorView::NoSuchEntry,
            Error::UrlParse(_) => ErrorView::UrlParse,
            Error::NoPathSegments => ErrorView::NoPathSegments,
        }
    }
}

/// Whether `result` is what `expected` says: the same value, or an error
/// with the expected view.
pub open spec fn agrees<T>(result: Result<T, Error>, expected: Result<T, ErrorView>) -> bool {
    match expected {
        Ok(value) => result == Ok::<T, Error>(value),
        Err(error) => result is Err && result->Err_0@ == error,
    }
}

/// Whether `result` is what `expected` says: a text of the same characters,
/// or an error with the expected view.
pub open spec fn agrees_in_text(
    result: Result<String, Error>,
    expected: Result<Seq<char>, ErrorView>,
) -> bool {
    match expected {
        Ok(text) => result is Ok && result->Ok_0@ == text,
        Err(error) => result is Err && result->Err_0@ == error,
    }
}

} // verus!
