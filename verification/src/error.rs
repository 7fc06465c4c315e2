//! What can go wrong.

use vstd::prelude::*;
use crate::afs::{IoError, IoErrorView};

verus! {

/// `std::str::Utf8Error`, which says where bytes stop being text. It is
/// carried along and never looked into.
#[verifier::external_type_specification]
#[verifier::external_body]
pub struct ExUtf8Error(std::str::Utf8Error);

/// `Utf8Error`'s `Clone`: nothing is claimed of the copy.
pub assume_specification[ <std::str::Utf8Error as Clone>::clone ](e: &std::str::Utf8Error) -> std::str::Utf8Error;

/// Why a manifest could not be read or completed.
#[derive(Debug, Clone)]
pub enum Error {
    /// The text is no TOML, or the document does not have the shape of a
    /// manifest. The words say what was found wrong.
    Parse(String),
    /// A directory that had to be read could not be.
    Io(IoError),
    /// The bytes are no text.
    Utf8(std::str::Utf8Error),
    /// Anything else, in words.
    Other(String),
}

/// What an `Error` holds, as plain values.
pub enum ErrorView {
    Parse(Seq<char>),
    Io(IoErrorView),
    Utf8,
    Other(Seq<char>),
}

impl View for Error {
    type V = ErrorView;

    open spec fn view(&self) -> ErrorView {
        match self {
            Error::Parse(msg) => ErrorView::Parse(msg@),
            Error::Io(e) => ErrorView::Io(e@),
            Error::Utf8(_) => ErrorView::Utf8,
            Error::Other(msg) => ErrorView::Other(msg@),
        }
    }
}

impl DeepView for Error {
    type V = ErrorView;

    open spec fn deep_view(&self) -> ErrorView {
        self@
    }
}

/// `Utf8Error`'s `Display`: where the bytes stop being text, in words.
#[verifier::external_body]
fn utf8_error_text(e: &std::str::Utf8Error) -> String {
    e.to_string()
}

impl Error {
    /// The error in words. Of bytes that are no text the standard library
    /// chooses the words; all other words are the error's own.
    pub fn to_string(&self) -> (r: String)
        ensures
            match self@ {
                ErrorView::Parse(msg) => r@ == msg,
                ErrorView::Io(e) => r@ == e.message,
                ErrorView::Utf8 => true,
                ErrorView::Other(msg) => r@ == msg,
            },
    {
        match self {
            Error::Parse(msg) => msg.clone(),
            Error::Io(e) => e.message.clone(),
            Error::Utf8(e) => utf8_error_text(e),
            Error::Other(msg) => msg.clone(),
        }
    }
}

} // verus!
