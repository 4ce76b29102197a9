//! Byte scanner: locates the first occurrence of the marker inside the
//! unstructured prefix and splits the buffer just before the two checksum
//! bytes that must precede it.

use vstd::prelude::*;

use crate::error::PuzError;
use crate::model::{
    first_marker_from, is_marker_at, lemma_first_marker_from, spec_scan, MARKER_LEN,
};

verus! {

/// Whether the marker occurs at offset `i`: the ASCII text `ACROSS&DOWN`
/// followed by a NUL byte.
pub fn marker_at(bytes: &Vec<u8>, i: usize) -> (b: bool)
    requires
        i + MARKER_LEN <= bytes@.len(),
    ensures
        b == is_marker_at(bytes@, i as int),
{
    let n = bytes.len();
    assert(i + MARKER_LEN <= n);
    bytes[i] == 0x41 && bytes[i + 1] == 0x43 && bytes[i + 2] == 0x52 && bytes[i + 3] == 0x4f
        && bytes[i + 4] == 0x53 && bytes[i + 5] == 0x53 && bytes[i + 6] == 0x26 && bytes[i + 7]
        == 0x44 && bytes[i + 8] == 0x4f && bytes[i + 9] == 0x57 && bytes[i + 10] == 0x4e && bytes[i
        + 11] == 0x00
}

/// Scan the whole buffer for the marker's first occurrence.  On success
/// the returned offset `p` points at the two checksum bytes, two before
/// the marker; bytes `[0, p)` are the leading bytes.  A buffer without
/// the marker fails with `MarkerNotFound`; a first occurrence at offset
/// 0 or 1 fails with `InsufficientPrefix`.
pub fn scan(bytes: &Vec<u8>) -> (r: Result<usize, PuzError>)
    ensures
        (match r {
            Ok(p) => spec_scan(bytes@) == Ok::<int, PuzError>(p as int) && p + 2 + MARKER_LEN
                <= bytes@.len(),
            Err(e) => spec_scan(bytes@) == Err::<int, PuzError>(e),
        }),
{
    proof {
        lemma_first_marker_from(bytes@, 0);
    }
    let len = bytes.len();
    if len < MARKER_LEN {
        assert(first_marker_from(bytes@, 0) is None);
        return Err(PuzError::MarkerNotFound);
    }
    let mut i: usize = 0;
    while i <= len - MARKER_LEN
        invariant
            i <= len,
            len == bytes@.len(),
            MARKER_LEN <= len,
            forall|k: int| 0 <= k < i ==> !is_marker_at(bytes@, k),
        decreases len - i,
    {
        if marker_at(bytes, i) {
            proof {
                lemma_first_marker_from(bytes@, 0);
            }
            assert(first_marker_from(bytes@, 0) == Some(i as int));
            if i < 2 {
                return Err(PuzError::InsufficientPrefix);
            }
            return Ok(i - 2);
        }
        i = i + 1;
    }
    proof {
        lemma_first_marker_from(bytes@, 0);
        assert(forall|k: int| 0 <= k ==> !is_marker_at(bytes@, k));
    }
    assert(first_marker_from(bytes@, 0) is None);
    Err(PuzError::MarkerNotFound)
}

} // verus!
