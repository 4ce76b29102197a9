//! Decoder for the binary crossword-puzzle container format.
//!
//! The input is a single byte buffer.  A fixed marker (`ACROSS&DOWN`
//! followed by a NUL byte) is located at a variable offset, preceded by a
//! two-byte checksum; a fixed-width header follows the marker, and then a
//! body of grid cells and NUL-terminated text fields whose sizes are driven
//! by header fields.  Decoding is forward-only and single-pass: the library
//! does not validate checksums, unscramble solutions, or re-encode.

pub mod body;
pub mod document;
pub mod error;
pub mod header;
pub mod model;
pub mod prim;
pub mod scan;
