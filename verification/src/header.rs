//! Header decoder: the fixed-width record that starts with the two
//! checksum bytes preceding the marker and runs through `scrambled_tag`.

use vstd::prelude::*;

use crate::error::PuzError;
use crate::model::{chars_of, spec_header, HeaderView, FIXED_LEN, MARKER_LEN};
use crate::prim::{push_char, read_bytes, read_u16_le, read_u8};
use crate::scan::marker_at;

verus! {

/// The decoded header.  Opaque checksum and reserved fields are kept as
/// raw bytes; `version` keeps three characters, its fourth on-disk byte
/// being a terminator that is dropped.
#[derive(Debug, PartialEq)]
pub struct Header {
    pub file_checksum: u16,
    pub base_checksum: u16,
    pub masked_low_checksums: Vec<u8>,
    pub masked_high_checksums: Vec<u8>,
    pub version: String,
    pub reserved_1c: Vec<u8>,
    pub scrambled_checksum: u16,
    pub reserved_20: Vec<u8>,
    pub width: u8,
    pub height: u8,
    pub num_clues: u16,
    pub unknown_bitmask: u16,
    pub scrambled_tag: u16,
}

impl View for Header {
    type V = HeaderView;

    open spec fn view(&self) -> HeaderView {
        HeaderView {
            file_checksum: self.file_checksum,
            base_checksum: self.base_checksum,
            masked_low_checksums: self.masked_low_checksums@,
            masked_high_checksums: self.masked_high_checksums@,
            version: self.version@,
            reserved_1c: self.reserved_1c@,
            scrambled_checksum: self.scrambled_checksum,
            reserved_20: self.reserved_20@,
            width: self.width,
            height: self.height,
            num_clues: self.num_clues,
            unknown_bitmask: self.unknown_bitmask,
            scrambled_tag: self.scrambled_tag,
        }
    }
}

/// Decode the fixed header region at `pos`, returning the header and the
/// offset of the first body byte.  Exactly `spec_header` on the buffer's
/// bytes: short reads fail with `UnexpectedEof`, and a marker re-check
/// mismatch fails with `MagicMismatch`.
pub fn parse_header(bytes: &Vec<u8>, pos: usize) -> (r: Result<(Header, usize), PuzError>)
    requires
        pos <= bytes@.len(),
    ensures
        (match r {
            Ok(t) => spec_header(bytes@, pos as int) == Ok::<(HeaderView, int), PuzError>(
                (t.0@, t.1 as int),
            ) && pos < t.1 <= bytes@.len(),
            Err(e) => spec_header(bytes@, pos as int) == Err::<(HeaderView, int), PuzError>(e),
        }),
{
    let len = bytes.len();
    if len - pos < 2 + MARKER_LEN {
        return Err(PuzError::UnexpectedEof);
    }
    if !marker_at(bytes, pos + 2) {
        return Err(PuzError::MagicMismatch);
    }
    if len - pos < FIXED_LEN {
        return Err(PuzError::UnexpectedEof);
    }
    let file_checksum = match read_u16_le(bytes, pos) {
        Ok(t) => t.0,
        Err(e) => return Err(e),
    };
    let base_checksum = match read_u16_le(bytes, pos + 14) {
        Ok(t) => t.0,
        Err(e) => return Err(e),
    };
    let masked_low_checksums = match read_bytes(bytes, pos + 16, 4) {
        Ok(t) => t.0,
        Err(e) => return Err(e),
    };
    let masked_high_checksums = match read_bytes(bytes, pos + 20, 4) {
        Ok(t) => t.0,
        Err(e) => return Err(e),
    };
    let version_raw = match read_bytes(bytes, pos + 24, 4) {
        Ok(t) => t.0,
        Err(e) => return Err(e),
    };
    let mut version = String::new();
    push_char(&mut version, version_raw[0] as char);
    push_char(&mut version, version_raw[1] as char);
    push_char(&mut version, version_raw[2] as char);
    proof {
        assert(version@ =~= chars_of(bytes@.subrange(pos + 24, pos + 27)));
    }
    let reserved_1c = match read_bytes(bytes, pos + 28, 2) {
        Ok(t) => t.0,
        Err(e) => return Err(e),
    };
    let scrambled_checksum = match read_u16_le(bytes, pos + 30) {
        Ok(t) => t.0,
        Err(e) => return Err(e),
    };
    let reserved_20 = match read_bytes(bytes, pos + 32, 12) {
        Ok(t) => t.0,
        Err(e) => return Err(e),
    };
    let width = match read_u8(bytes, pos + 44) {
        Ok(t) => t.0,
        Err(e) => return Err(e),
    };
    let height = match read_u8(bytes, pos + 45) {
        Ok(t) => t.0,
        Err(e) => return Err(e),
    };
    let num_clues = match read_u16_le(bytes, pos + 46) {
        Ok(t) => t.0,
        Err(e) => return Err(e),
    };
    let unknown_bitmask = match read_u16_le(bytes, pos + 48) {
        Ok(t) => t.0,
        Err(e) => return Err(e),
    };
    let scrambled_tag = match read_u16_le(bytes, pos + 50) {
        Ok(t) => t.0,
        Err(e) => return Err(e),
    };
    let header = Header {
        file_checksum,
        base_checksum,
        masked_low_checksums,
        masked_high_checksums,
        version,
        reserved_1c,
        scrambled_checksum,
        reserved_20,
        width,
        height,
        num_clues,
        unknown_bitmask,
        scrambled_tag,
    };
    Ok((header, pos + FIXED_LEN))
}

} // verus!
