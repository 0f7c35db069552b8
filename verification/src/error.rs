//! Errors reported by the readers of this crate.
use vstd::prelude::*;

verus! {

/// A feature of a file that this crate does not read (yet).
#[derive(Debug)]
pub struct UnsupportedError {
    pub reason: String,
    pub location: Option<u64>,
}

/// A file whose contents break the rules of its format.
#[derive(Debug)]
pub struct CorruptionError {
    pub reason: String,
    pub location: Option<u64>,
}

/// A file (or subfile) that starts with another magic than the expected one.
#[derive(Debug)]
pub struct IncorrectFormat {
    pub expected_magic: Vec<u8>,
    pub found_magic: Vec<u8>,
    pub location: Option<u64>,
}

/// An index that lies outside of the valid range `start..end`.
#[derive(Debug)]
pub struct RangeError {
    pub requested: u64,
    pub range_start: u64,
    pub range_end: u64,
    pub location: Option<u64>,
}

/// An input that the called function cannot work with.
#[derive(Debug)]
pub struct InvalidInputError {
    pub reason: String,
    pub location: Option<u64>,
}

/// A read that needed more bytes than the input has left.
#[derive(Debug)]
pub struct EndOfInput {
    /// Number of bytes that the read needed.
    pub requested: u64,
    /// Position (relative to the start of the reader) at which the read started.
    pub location: u64,
}

/// A string whose bytes are not valid UTF-8.
#[derive(Debug)]
pub struct InvalidUtf8 {
    pub bytes: Vec<u8>,
}

/// Every error that reading a file can produce.
#[derive(Debug)]
pub enum EditorError {
    Unsupported { source: UnsupportedError },
    IncorrectFormat { source: IncorrectFormat },
    Corrupted { source: CorruptionError },
    /// Reading ran past the end of the input.
    IoError { source: EndOfInput },
    InvalidString { source: InvalidUtf8 },
    OutOfRange { source: RangeError },
    InvalidInput { source: InvalidInputError },
}

pub type EditorResult<T> = Result<T, EditorError>;

/// Builds the reason text `prefix`, `value` in decimal, `suffix`.
#[verifier::external_body]
pub(crate) fn reason_with_value(prefix: &str, value: u64, suffix: &str) -> String {
    format!("{prefix}{value}{suffix}")
}

pub(crate) fn corrupted(reason: String, location: Option<u64>) -> (e: EditorError)
    ensures
        e matches EditorError::Corrupted { source } && source.reason == reason && source.location == location,
{
    EditorError::Corrupted { source: CorruptionError { reason, location } }
}

pub(crate) fn unsupported(reason: String, location: Option<u64>) -> (e: EditorError)
    ensures
        e matches EditorError::Unsupported { source } && source.reason == reason && source.location == location,
{
    EditorError::Unsupported { source: UnsupportedError { reason, location } }
}

pub(crate) fn invalid_input(reason: String, location: Option<u64>) -> (e: EditorError)
    ensures
        e matches EditorError::InvalidInput { source } && source.reason == reason && source.location == location,
{
    EditorError::InvalidInput { source: InvalidInputError { reason, location } }
}

} // verus!
