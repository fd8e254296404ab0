//! The failure taxonomy of the stream: malformed line structure,
//! fields that do not resolve to a number, and failed reads.

use vstd::prelude::*;

verus! {

/// What made a line structurally unusable.
#[derive(Debug, Clone, Copy, PartialEq, Eq, Structural)]
pub enum FormatCause {
    /// The line was empty where a timestamp was expected.
    EmptyLine,
    /// A timestamped line did not begin with `[`.
    MissingOpenBracket,
    /// No `] ` closed the timestamp bracket.
    MissingCloseBracket,
    /// The timestamp had no `.` between seconds and microseconds.
    MissingDot,
    /// No `: ` separated the device name from the event fields.
    MissingDevice,
    /// The type token was missing.
    MissingType,
    /// The code token was missing.
    MissingCode,
    /// The value token was missing.
    MissingValue,
}

/// Which field failed to parse as a number or resolve as a symbol.
#[derive(Debug, Clone, Copy, PartialEq, Eq, Structural)]
pub enum NumField {
    Sec,
    Usec,
    Type,
    Code,
    Value,
}

/// The kind of a failure.
#[derive(Debug, Clone, Copy, PartialEq, Eq, Structural)]
pub enum ErrKind {
    /// Malformed line structure.
    Format(FormatCause),
    /// A timestamp or token field failed numeric resolution.
    Num(NumField),
    /// The underlying source failed to produce a line.
    Io,
}

/// A failure, carrying the original, unmodified line text for
/// diagnostics.
#[derive(Debug, PartialEq, Eq)]
pub struct Error {
    pub kind: ErrKind,
    pub line: Vec<u8>,
}

impl Error {
    /// Builds a failure that keeps the offending line.
    pub fn new(kind: ErrKind, line: &[u8]) -> (r: Error)
        ensures
            r.kind == kind,
            r.line@ == line@,
    {
        Error { kind, line: vstd::slice::slice_to_vec(line) }
    }
}

} // verus!
