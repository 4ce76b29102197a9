use vstd::prelude::*;

verus! {

/// The ways a parse can fail.  Every failure is terminal: the first error
/// aborts the whole parse and no partial document is produced.
#[derive(Clone, Copy, Debug, PartialEq, Eq)]
pub enum PuzError {
    /// The marker's first occurrence begins at offset 0 or 1, leaving no
    /// room for the two checksum bytes that must precede it.
    InsufficientPrefix,
    /// The marker byte sequence does not occur anywhere in the buffer.
    MarkerNotFound,
    /// The defensive re-check of the marker during header decoding failed.
    MagicMismatch,
    /// A fixed-width or size-derived field would read past the buffer end.
    UnexpectedEof,
    /// A NUL-terminated text field has no terminator before the buffer ends.
    UnterminatedString,
}

} // verus!
