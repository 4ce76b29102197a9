//! Mathematical model of the container format.
//!
//! Everything here is specification-level: spec functions over `Seq<u8>`
//! that say, byte for byte, what a successful parse returns and which error
//! each malformed buffer produces.  The executable decoders elsewhere in
//! the crate are proved to return exactly what these functions describe.

use vstd::prelude::*;

use crate::error::PuzError;

verus! {

/// Number of bytes in the marker: the ASCII text `ACROSS&DOWN` plus a NUL.
pub const MARKER_LEN: usize = 12;

/// Number of bytes in the fixed region, from the two checksum bytes that
/// precede the marker through the last header field.
pub const FIXED_LEN: usize = 52;

/// The marker (`ACROSS&DOWN` followed by a NUL byte) occurs at offset `i`.
/// The twelve byte values are the ASCII codes of `A C R O S S & D O W N`
/// and the terminating zero.
pub open spec fn is_marker_at(s: Seq<u8>, i: int) -> bool {
    &&& 0 <= i
    &&& i + MARKER_LEN <= s.len()
    &&& s[i] == 0x41u8
    &&& s[i + 1] == 0x43u8
    &&& s[i + 2] == 0x52u8
    &&& s[i + 3] == 0x4fu8
    &&& s[i + 4] == 0x53u8
    &&& s[i + 5] == 0x53u8
    &&& s[i + 6] == 0x26u8
    &&& s[i + 7] == 0x44u8
    &&& s[i + 8] == 0x4fu8
    &&& s[i + 9] == 0x57u8
    &&& s[i + 10] == 0x4eu8
    &&& s[i + 11] == 0x00u8
}

/// Offset of the first occurrence of the marker at or after `i`, if any.
pub open spec fn first_marker_from(s: Seq<u8>, i: int) -> Option<int>
    recommends
        0 <= i <= s.len(),
    decreases s.len() - i when 0 <= i <= s.len()
{
    if i + MARKER_LEN > s.len() {
        None
    } else if is_marker_at(s, i) {
        Some(i)
    } else {
        first_marker_from(s, i + 1)
    }
}

/// `first_marker_from` finds a marker occurrence and nothing earlier:
/// `Some(j)` is the first occurrence at or after `i`, and `None` means
/// there is none at all.
pub proof fn lemma_first_marker_from(s: Seq<u8>, i: int)
    requires
        0 <= i <= s.len(),
    ensures
        (match first_marker_from(s, i) {
            Some(j) => i <= j && is_marker_at(s, j) && (forall|k: int|
                i <= k < j ==> !is_marker_at(s, k)),
            None => forall|k: int| i <= k ==> !is_marker_at(s, k),
        }),
    decreases s.len() - i,
{
    if i + MARKER_LEN > s.len() {
    } else if is_marker_at(s, i) {
    } else {
        lemma_first_marker_from(s, i + 1);
    }
}

/// Offset of the first zero byte at or after `p`, if any.
pub open spec fn first_zero_from(s: Seq<u8>, p: int) -> Option<int>
    recommends
        0 <= p <= s.len(),
    decreases s.len() - p when 0 <= p <= s.len()
{
    if p >= s.len() {
        None
    } else if s[p] == 0u8 {
        Some(p)
    } else {
        first_zero_from(s, p + 1)
    }
}

/// `first_zero_from` finds a zero byte and nothing earlier: `Some(z)` is
/// the first zero at or after `p`, and `None` means there is none.
pub proof fn lemma_first_zero_from(s: Seq<u8>, p: int)
    requires
        0 <= p <= s.len(),
    ensures
        (match first_zero_from(s, p) {
            Some(z) => p <= z < s.len() && s[z] == 0u8 && (forall|k: int|
                p <= k < z ==> s[k] != 0u8),
            None => forall|k: int| p <= k < s.len() ==> s[k] != 0u8,
        }),
    decreases s.len() - p,
{
    if p >= s.len() {
    } else if s[p] == 0u8 {
    } else {
        lemma_first_zero_from(s, p + 1);
    }
}

/// The 16-bit little-endian integer stored at offset `p`.
pub open spec fn u16_le(s: Seq<u8>, p: int) -> u16
    recommends
        0 <= p,
        p + 2 <= s.len(),
{
    (s[p] + 256 * s[p + 1]) as u16
}

/// Each byte taken as a single-byte character code point (never UTF-8).
pub open spec fn chars_of(s: Seq<u8>) -> Seq<char> {
    s.map_values(|b: u8| b as char)
}

/// What the scanner returns: the offset of the two checksum bytes, two
/// before the marker's first occurrence.  A buffer with no marker fails
/// with `MarkerNotFound`; one whose first occurrence starts at offset 0
/// or 1 leaves no room for the checksum and fails with
/// `InsufficientPrefix`.
pub open spec fn spec_scan(s: Seq<u8>) -> Result<int, PuzError> {
    match first_marker_from(s, 0) {
        None => Err(PuzError::MarkerNotFound),
        Some(j) => if j < 2 {
            Err(PuzError::InsufficientPrefix)
        } else {
            Ok(j - 2)
        },
    }
}

/// The fixed-width header fields, decoded.  Opaque fields stay raw bytes;
/// `version` keeps the first three of its four on-disk bytes as characters.
pub ghost struct HeaderView {
    pub file_checksum: u16,
    pub base_checksum: u16,
    pub masked_low_checksums: Seq<u8>,
    pub masked_high_checksums: Seq<u8>,
    pub version: Seq<char>,
    pub reserved_1c: Seq<u8>,
    pub scrambled_checksum: u16,
    pub reserved_20: Seq<u8>,
    pub width: u8,
    pub height: u8,
    pub num_clues: u16,
    pub unknown_bitmask: u16,
    pub scrambled_tag: u16,
}

/// Decode the fixed region starting at `p` (the two checksum bytes, the
/// marker, then the remaining header fields; `FIXED_LEN` bytes in all).
/// Short reads fail with `UnexpectedEof`; a full-width marker re-check
/// that mismatches fails with `MagicMismatch`.  On success the next
/// offset is `p + FIXED_LEN`.
pub open spec fn spec_header(s: Seq<u8>, p: int) -> Result<(HeaderView, int), PuzError>
    recommends
        0 <= p <= s.len(),
{
    if p + 2 + MARKER_LEN > s.len() {
        Err(PuzError::UnexpectedEof)
    } else if !is_marker_at(s, p + 2) {
        Err(PuzError::MagicMismatch)
    } else if p + FIXED_LEN > s.len() {
        Err(PuzError::UnexpectedEof)
    } else {
        Ok(
            (
                HeaderView {
                    file_checksum: u16_le(s, p),
                    base_checksum: u16_le(s, p + 14),
                    masked_low_checksums: s.subrange(p + 16, p + 20),
                    masked_high_checksums: s.subrange(p + 20, p + 24),
                    version: chars_of(s.subrange(p + 24, p + 27)),
                    reserved_1c: s.subrange(p + 28, p + 30),
                    scrambled_checksum: u16_le(s, p + 30),
                    reserved_20: s.subrange(p + 32, p + 44),
                    width: s[p + 44],
                    height: s[p + 45],
                    num_clues: u16_le(s, p + 46),
                    unknown_bitmask: u16_le(s, p + 48),
                    scrambled_tag: u16_le(s, p + 50),
                },
                p + FIXED_LEN,
            ),
        )
    }
}

/// Decode `n` grid cells at `p`: the next `n` bytes, each one character.
pub open spec fn spec_cells(s: Seq<u8>, p: int, n: int) -> Result<(Seq<char>, int), PuzError>
    recommends
        0 <= p <= s.len(),
        0 <= n,
{
    if p + n > s.len() {
        Err(PuzError::UnexpectedEof)
    } else {
        Ok((chars_of(s.subrange(p, p + n)), p + n))
    }
}

/// Decode one NUL-terminated text field at `p`: the characters before the
/// first zero byte, consuming the terminator as well.
pub open spec fn spec_text(s: Seq<u8>, p: int) -> Result<(Seq<char>, int), PuzError>
    recommends
        0 <= p <= s.len(),
{
    match first_zero_from(s, p) {
        None => Err(PuzError::UnterminatedString),
        Some(z) => Ok((chars_of(s.subrange(p, z)), z + 1)),
    }
}

/// Decode exactly `n` consecutive NUL-terminated text fields at `p`,
/// in file order.
pub open spec fn spec_texts(s: Seq<u8>, p: int, n: nat) -> Result<(Seq<Seq<char>>, int), PuzError>
    recommends
        0 <= p <= s.len(),
    decreases n,
{
    if n == 0 {
        Ok((Seq::empty(), p))
    } else {
        match spec_text(s, p) {
            Err(e) => Err(e),
            Ok((t, p1)) => match spec_texts(s, p1, (n - 1) as nat) {
                Err(e) => Err(e),
                Ok((ts, p2)) => Ok((seq![t] + ts, p2)),
            },
        }
    }
}

/// The views of a sequence of owned text fields.
pub open spec fn texts_view(cs: Seq<String>) -> Seq<Seq<char>> {
    cs.map_values(|c: String| c@)
}

/// The variable-length body: both grids, the three leading text fields,
/// the clue list, and the notes field.
pub ghost struct BodyView {
    pub solution: Seq<char>,
    pub grid: Seq<char>,
    pub title: Seq<char>,
    pub author: Seq<char>,
    pub copyright: Seq<char>,
    pub clues: Seq<Seq<char>>,
    pub notes: Seq<char>,
}

/// Decode the body at `p`: `width*height` solution cells, `width*height`
/// grid cells, then `title`, `author`, `copyright`, exactly `num_clues`
/// clues, and `notes`.  The first sub-step failure is the result.
pub open spec fn spec_body(s: Seq<u8>, p: int, width: u8, height: u8, num_clues: u16) -> Result<
    (BodyView, int),
    PuzError,
>
    recommends
        0 <= p <= s.len(),
{
    match spec_cells(s, p, width * height) {
        Err(e) => Err(e),
        Ok((solution, p1)) => match spec_cells(s, p1, width * height) {
            Err(e) => Err(e),
            Ok((grid, p2)) => match spec_text(s, p2) {
                Err(e) => Err(e),
                Ok((title, p3)) => match spec_text(s, p3) {
                    Err(e) => Err(e),
                    Ok((author, p4)) => match spec_text(s, p4) {
                        Err(e) => Err(e),
                        Ok((copyright, p5)) => match spec_texts(s, p5, num_clues as nat) {
                            Err(e) => Err(e),
                            Ok((clues, p6)) => match spec_text(s, p6) {
                                Err(e) => Err(e),
                                Ok((notes, p7)) => Ok(
                                    (
                                        BodyView {
                                            solution,
                                            grid,
                                            title,
                                            author,
                                            copyright,
                                            clues,
                                            notes,
                                        },
                                        p7,
                                    ),
                                ),
                            },
                        },
                    },
                },
            },
        },
    }
}

/// The complete decoded document.
pub ghost struct DocView {
    pub leading_bytes: Seq<u8>,
    pub file_checksum: u16,
    pub base_checksum: u16,
    pub masked_low_checksums: Seq<u8>,
    pub masked_high_checksums: Seq<u8>,
    pub version: Seq<char>,
    pub reserved_1c: Seq<u8>,
    pub scrambled_checksum: u16,
    pub reserved_20: Seq<u8>,
    pub width: u8,
    pub height: u8,
    pub num_clues: u16,
    pub unknown_bitmask: u16,
    pub scrambled_tag: u16,
    pub solution: Seq<char>,
    pub grid: Seq<char>,
    pub title: Seq<char>,
    pub author: Seq<char>,
    pub copyright: Seq<char>,
    pub clues: Seq<Seq<char>>,
    pub notes: Seq<char>,
    pub trailing_bytes: Seq<u8>,
}

/// The whole parse: scan for the marker, decode the header, decode the
/// body, and collect every remaining byte as the trailing blob.  This is
/// the single function the executable parser is proved against.
pub open spec fn spec_parse(s: Seq<u8>) -> Result<DocView, PuzError> {
    match spec_scan(s) {
        Err(e) => Err(e),
        Ok(p) => match spec_header(s, p) {
            Err(e) => Err(e),
            Ok((h, p1)) => match spec_body(s, p1, h.width, h.height, h.num_clues) {
                Err(e) => Err(e),
                Ok((b, p2)) => Ok(
                    DocView {
                        leading_bytes: s.subrange(0, p),
                        file_checksum: h.file_checksum,
                        base_checksum: h.base_checksum,
                        masked_low_checksums: h.masked_low_checksums,
                        masked_high_checksums: h.masked_high_checksums,
                        version: h.version,
                        reserved_1c: h.reserved_1c,
                        scrambled_checksum: h.scrambled_checksum,
                        reserved_20: h.reserved_20,
                        width: h.width,
                        height: h.height,
                        num_clues: h.num_clues,
                        unknown_bitmask: h.unknown_bitmask,
                        scrambled_tag: h.scrambled_tag,
                        solution: b.solution,
                        grid: b.grid,
                        title: b.title,
                        author: b.author,
                        copyright: b.copyright,
                        clues: b.clues,
                        notes: b.notes,
                        trailing_bytes: s.subrange(p2, s.len() as int),
                    },
                ),
            },
        },
    }
}

} // verus!
