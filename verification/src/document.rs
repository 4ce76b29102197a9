//! Tail collector and assembler: the decoded document, the top-level
//! parse that runs the whole pipeline, and the determinism law.

use vstd::prelude::*;

use crate::body::parse_body;
use crate::error::PuzError;
use crate::header::parse_header;
use crate::model::{
    is_marker_at, lemma_first_marker_from, spec_parse, u16_le, DocView, MARKER_LEN,
};
use crate::prim::read_bytes;
use crate::scan::scan;

verus! {

/// The complete decoded document.  Immutable once built: constructed by
/// one parse call and read-only thereafter.
#[derive(Debug, PartialEq)]
pub struct PuzFile {
    pub leading_bytes: Vec<u8>,
    pub file_checksum: u16,
    pub base_checksum: u16,
    pub masked_low_checksums: Vec<u8>,
    pub masked_high_checksums: Vec<u8>,
    pub version: String,
    pub reserved_1c: Vec<u8>,
    pub scrambled_checksum: u16,
    pub reserved_20: Vec<u8>,
    pub width: u8,
    pub height: u8,
    pub num_clues: u16,
    pub unknown_bitmask: u16,
    pub scrambled_tag: u16,
    pub solution: Vec<char>,
    pub grid: Vec<char>,
    pub title: String,
    pub author: String,
    pub copyright: String,
    pub clues: Vec<String>,
    pub notes: String,
    pub trailing_bytes: Vec<u8>,
}

impl View for PuzFile {
    type V = DocView;

    open spec fn view(&self) -> DocView {
        DocView {
            leading_bytes: self.leading_bytes@,
            file_checksum: self.file_checksum,
            base_checksum: self.base_checksum,
            masked_low_checksums: self.masked_low_checksums@,
            masked_high_checksums: self.masked_high_checksums@,
            version: self.version@,
            reserved_1c: self.reserved_1c@,
            scrambled_checksum: self.scrambled_checksum,
            reserved_20: self.reserved_20@,
            width: self.width,
            height: self.height,
            num_clues: self.num_clues,
            unknown_bitmask: self.unknown_bitmask,
            scrambled_tag: self.scrambled_tag,
            solution: self.solution@,
            grid: self.grid@,
            title: self.title@,
            author: self.author@,
            copyright: self.copyright@,
            clues: crate::model::texts_view(self.clues@),
            notes: self.notes@,
            trailing_bytes: self.trailing_bytes@,
        }
    }
}

/// Collect every byte from `pos` to the end of the buffer, verbatim.
/// This stage cannot fail, even on an empty remainder.
pub fn collect_trailing(bytes: &Vec<u8>, pos: usize) -> (r: Vec<u8>)
    requires
        pos <= bytes@.len(),
    ensures
        r@ == bytes@.subrange(pos as int, bytes@.len() as int),
{
    match read_bytes(bytes, pos, bytes.len() - pos) {
        Ok(t) => t.0,
        Err(_) => Vec::new(),
    }
}

/// Parse a whole buffer: scan for the marker, decode the header and the
/// body, and collect the trailing bytes.  The result is exactly
/// `spec_parse` of the buffer's bytes, so any two parses of the same
/// buffer agree.  On success the solution and grid each hold
/// `width * height` characters, the clue list holds `num_clues` entries,
/// and the leading bytes are the buffer's prefix, followed immediately
/// by the two bytes whose little-endian value is `file_checksum`.
pub fn parse_puz(bytes: &Vec<u8>) -> (r: Result<PuzFile, PuzError>)
    ensures
        (match r {
            Ok(doc) => spec_parse(bytes@) == Ok::<DocView, PuzError>(doc@),
            Err(e) => spec_parse(bytes@) == Err::<DocView, PuzError>(e),
        }),
        (r matches Ok(doc) ==> doc@.solution.len() == doc@.width * doc@.height && doc@.grid.len()
            == doc@.width * doc@.height && doc@.clues.len() == doc@.num_clues),
        (r matches Ok(doc) ==> doc@.leading_bytes == bytes@.subrange(
            0,
            doc@.leading_bytes.len() as int,
        ) && doc@.leading_bytes.len() + 2 + MARKER_LEN <= bytes@.len() && doc@.file_checksum
            == u16_le(bytes@, doc@.leading_bytes.len() as int)),
{
    let p = match scan(bytes) {
        Ok(p) => p,
        Err(e) => return Err(e),
    };
    let leading_bytes = match read_bytes(bytes, 0, p) {
        Ok(t) => t.0,
        Err(_) => Vec::new(),
    };
    let (header, p1) = match parse_header(bytes, p) {
        Ok(t) => t,
        Err(e) => return Err(e),
    };
    let (body, p2) = match parse_body(bytes, p1, header.width, header.height, header.num_clues) {
        Ok(t) => t,
        Err(e) => return Err(e),
    };
    let trailing_bytes = collect_trailing(bytes, p2);
    let doc = PuzFile {
        leading_bytes,
        file_checksum: header.file_checksum,
        base_checksum: header.base_checksum,
        masked_low_checksums: header.masked_low_checksums,
        masked_high_checksums: header.masked_high_checksums,
        version: header.version,
        reserved_1c: header.reserved_1c,
        scrambled_checksum: header.scrambled_checksum,
        reserved_20: header.reserved_20,
        width: header.width,
        height: header.height,
        num_clues: header.num_clues,
        unknown_bitmask: header.unknown_bitmask,
        scrambled_tag: header.scrambled_tag,
        solution: body.solution,
        grid: body.grid,
        title: body.title,
        author: body.author,
        copyright: body.copyright,
        clues: body.clues,
        notes: body.notes,
        trailing_bytes,
    };
    Ok(doc)
}

/// Parsing is a pure function of the input bytes: two successful parses
/// of the same buffer yield field-for-field identical documents.
pub proof fn lemma_parse_deterministic(s: Seq<u8>, d1: DocView, d2: DocView)
    requires
        spec_parse(s) == Ok::<DocView, PuzError>(d1),
        spec_parse(s) == Ok::<DocView, PuzError>(d2),
    ensures
        d1 == d2,
{
}

/// A buffer whose first marker occurrence begins at offset 0 or 1 leaves
/// no room for the two checksum bytes: the parse fails with
/// `InsufficientPrefix`.
pub proof fn lemma_insufficient_prefix(s: Seq<u8>, j: int)
    requires
        is_marker_at(s, j),
        j < 2,
        forall|k: int| 0 <= k < j ==> !is_marker_at(s, k),
    ensures
        spec_parse(s) == Err::<DocView, PuzError>(PuzError::InsufficientPrefix),
{
    lemma_first_marker_from(s, 0);
}

/// A buffer that parses successfully with the marker at offset exactly 2
/// has no leading bytes at all.
pub proof fn lemma_marker_at_two_empty_leading(s: Seq<u8>, d: DocView)
    requires
        spec_parse(s) == Ok::<DocView, PuzError>(d),
        is_marker_at(s, 2),
    ensures
        d.leading_bytes.len() == 0,
{
    lemma_first_marker_from(s, 0);
}

} // verus!
