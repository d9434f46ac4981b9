//! What can go wrong while an object is looked up or completed.

use vstd::prelude::*;
use crate::number::IntegerErrorKind;
use crate::path::{ObjectPath, ObjectPathView};

verus! {

/// The kind of a failure of the file system, as std reports it. The library
/// carries it from the one who saw the failure to the one who is told.
#[verifier::external_type_specification]
#[verifier::external_body]
pub struct ExIoErrorKind(std::io::ErrorKind);

/// Why inflating a stream failed.
#[derive(Clone, Copy, Debug, PartialEq, Eq, Structural)]
pub enum InflateError {
    /// The decoder found the stream malformed.
    Data,
    /// The decoder was called in a way that its state does not allow.
    Stream,
    /// The decoder was given a parameter that it does not take.
    Param,
    /// The stream asks for a preset dictionary.
    NeedDict,
    /// The decoder failed in a way that has no name here.
    Unknown,
    /// The input is used up, the output is not full and the stream has not ended.
    Incomplete,
    /// The output is full and the stream has not ended: it holds more than was
    /// declared, or its end is missing.
    Unfinished,
    /// The stream has ended before the output was full: it holds less than was declared.
    Short,
    /// Header and payload together are more than a buffer can hold.
    TooLarge,
}

/// The message of an [`Error::InvalidHeader`] for a header without a NUL byte.
pub const MISSING_NUL: &'static str = "Did not find 0 byte in header";

/// The message of an [`Error::InvalidHeader`] for a header that is not two tokens.
pub const MISSING_TOKENS: &'static str = "Expected '<type> <size>'";

/// The message of an [`Error::ParseIntegerError`].
pub const INVALID_SIZE: &'static str = "Object size was not valid UTF-8 or ascii for that matter";

/// The action of an [`Error::Io`] that came from opening the file.
pub const OPEN: &'static str = "open";

/// The action of an [`Error::Io`] that came from reading the file.
pub const READ: &'static str = "read";

/// The action of an [`Error::Io`] that came from asking for the file's size.
pub const READ_METADATA: &'static str = "read metadata";

/// A failure of a lookup or of a completion.
#[derive(Debug, PartialEq, Eq)]
pub enum Error {
    /// The compressed bytes of an object could not be inflated.
    Decompress(InflateError),
    /// The first bytes of the file at the path could not be inflated.
    DecompressFile(InflateError, ObjectPath),
    /// The size in a header is no unsigned decimal number: the message, the bytes of
    /// the size, and what is wrong with them.
    ParseIntegerError(&'static str, Vec<u8>, IntegerErrorKind),
    /// The kind in a header is none of the four names: the bytes of the kind.
    ObjectHeader(Vec<u8>),
    /// The header has no NUL byte, or is not a kind, a space and a size.
    InvalidHeader(&'static str),
    /// The file system failed: how, at which action, on which file.
    Io(std::io::ErrorKind, &'static str, ObjectPath),
}

/// An [`Error`] with its bytes, texts and paths as sequences.
pub enum ErrorView {
    Decompress(InflateError),
    DecompressFile(InflateError, ObjectPathView),
    ParseIntegerError(Seq<char>, Seq<u8>, IntegerErrorKind),
    ObjectHeader(Seq<u8>),
    InvalidHeader(Seq<char>),
    Io(std::io::ErrorKind, Seq<char>, ObjectPathView),
}

impl View for Error {
    type V = ErrorView;

    open spec fn view(&self) -> ErrorView {
        match *self {
            Error::Decompress(why) => ErrorView::Decompress(why),
            Error::DecompressFile(why, path) => ErrorView::DecompressFile(why, path@),
            Error::ParseIntegerError(message, number, why) => ErrorView::ParseIntegerError(
                message@,
                number@,
                why,
            ),
            Error::ObjectHeader(name) => ErrorView::ObjectHeader(name@),
            Error::InvalidHeader(message) => ErrorView::InvalidHeader(message@),
            Error::Io(cause, action, path) => ErrorView::Io(cause, action@, path@),
        }
    }
}

} // verus!
