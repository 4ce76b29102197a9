//! Primitive decoders: fixed-width little-endian integers, fixed-length
//! byte runs, and NUL-terminated text, each reading at a cursor into the
//! input buffer and returning the decoded value with the new cursor.

use vstd::prelude::*;

use crate::error::PuzError;
use crate::model::{chars_of, first_zero_from, lemma_first_zero_from, spec_text, u16_le};

verus! {

/// Relies on `String::push`: appends the given character to the end of
/// the string.
#[verifier::external_body]
pub(crate) fn push_char(s: &mut String, c: char)
    ensures
        final(s)@ == old(s)@.push(c),
{
    s.push(c);
}

/// Read the single byte at `pos`.
pub fn read_u8(bytes: &Vec<u8>, pos: usize) -> (r: Result<(u8, usize), PuzError>)
    requires
        pos <= bytes@.len(),
    ensures
        pos + 1 <= bytes@.len() ==> r == Ok::<(u8, usize), PuzError>(
            (bytes@[pos as int], (pos + 1) as usize),
        ),
        pos + 1 > bytes@.len() ==> r == Err::<(u8, usize), PuzError>(PuzError::UnexpectedEof),
{
    if pos >= bytes.len() {
        return Err(PuzError::UnexpectedEof);
    }
    Ok((bytes[pos], pos + 1))
}

/// Read the 16-bit little-endian integer at `pos`.
pub fn read_u16_le(bytes: &Vec<u8>, pos: usize) -> (r: Result<(u16, usize), PuzError>)
    requires
        pos <= bytes@.len(),
    ensures
        pos + 2 <= bytes@.len() ==> r == Ok::<(u16, usize), PuzError>(
            (u16_le(bytes@, pos as int), (pos + 2) as usize),
        ),
        pos + 2 > bytes@.len() ==> r == Err::<(u16, usize), PuzError>(PuzError::UnexpectedEof),
{
    if bytes.len() - pos < 2 {
        return Err(PuzError::UnexpectedEof);
    }
    let lo = bytes[pos];
    let hi = bytes[pos + 1];
    Ok(((lo as u16) + 256 * (hi as u16), pos + 2))
}

/// Read exactly `n` raw bytes at `pos`.
pub fn read_bytes(bytes: &Vec<u8>, pos: usize, n: usize) -> (r: Result<(Vec<u8>, usize), PuzError>)
    requires
        pos <= bytes@.len(),
    ensures
        pos + n <= bytes@.len() ==> (r matches Ok(t) && t.0@ == bytes@.subrange(
            pos as int,
            pos + n,
        ) && t.1 == pos + n),
        pos + n > bytes@.len() ==> r == Err::<(Vec<u8>, usize), PuzError>(PuzError::UnexpectedEof),
{
    if bytes.len() - pos < n {
        return Err(PuzError::UnexpectedEof);
    }
    let end: usize = pos + n;
    let mut out: Vec<u8> = Vec::new();
    let mut j: usize = pos;
    while j < end
        invariant
            pos <= j <= end,
            end == pos + n,
            end <= bytes@.len(),
            out@ =~= bytes@.subrange(pos as int, j as int),
        decreases end - j,
    {
        out.push(bytes[j]);
        j = j + 1;
    }
    assert(out@ =~= bytes@.subrange(pos as int, pos + n));
    Ok((out, end))
}

/// Read exactly `n` bytes at `pos`, each mapped to a single-byte character.
pub fn read_cells(bytes: &Vec<u8>, pos: usize, n: usize) -> (r: Result<
    (Vec<char>, usize),
    PuzError,
>)
    requires
        pos <= bytes@.len(),
    ensures
        pos + n <= bytes@.len() ==> (r matches Ok(t) && t.0@ == chars_of(
            bytes@.subrange(pos as int, pos + n),
        ) && t.1 == pos + n),
        pos + n > bytes@.len() ==> r == Err::<(Vec<char>, usize), PuzError>(
            PuzError::UnexpectedEof,
        ),
{
    if bytes.len() - pos < n {
        return Err(PuzError::UnexpectedEof);
    }
    let end: usize = pos + n;
    let mut out: Vec<char> = Vec::new();
    let mut j: usize = pos;
    while j < end
        invariant
            pos <= j <= end,
            end == pos + n,
            end <= bytes@.len(),
            out@ =~= chars_of(bytes@.subrange(pos as int, j as int)),
        decreases end - j,
    {
        out.push(bytes[j] as char);
        proof {
            assert(bytes@.subrange(pos as int, j + 1) =~= bytes@.subrange(pos as int, j as int)
                .push(bytes@[j as int]));
        }
        j = j + 1;
    }
    assert(out@ =~= chars_of(bytes@.subrange(pos as int, pos + n)));
    Ok((out, end))
}

/// Read the NUL-terminated text field at `pos`: everything before the
/// first zero byte, one character per byte, consuming the terminator too.
pub fn read_nul_text(bytes: &Vec<u8>, pos: usize) -> (r: Result<(String, usize), PuzError>)
    requires
        pos <= bytes@.len(),
    ensures
        (match r {
            Ok(t) => spec_text(bytes@, pos as int) == Ok::<(Seq<char>, int), PuzError>(
                (t.0@, t.1 as int),
            ) && pos < t.1 <= bytes@.len(),
            Err(e) => spec_text(bytes@, pos as int) == Err::<(Seq<char>, int), PuzError>(e),
        }),
{
    proof {
        lemma_first_zero_from(bytes@, pos as int);
    }
    let mut z: usize = pos;
    while z < bytes.len() && bytes[z] != 0
        invariant
            pos <= z <= bytes@.len(),
            forall|k: int| pos <= k < z ==> bytes@[k] != 0u8,
        decreases bytes@.len() - z,
    {
        z = z + 1;
    }
    if z >= bytes.len() {
        // no terminator anywhere at or after pos
        assert(first_zero_from(bytes@, pos as int) is None);
        return Err(PuzError::UnterminatedString);
    }
    assert(first_zero_from(bytes@, pos as int) == Some(z as int));
    let mut text = String::new();
    let mut i: usize = pos;
    while i < z
        invariant
            pos <= i <= z < bytes@.len(),
            text@ =~= chars_of(bytes@.subrange(pos as int, i as int)),
        decreases z - i,
    {
        push_char(&mut text, bytes[i] as char);
        proof {
            assert(bytes@.subrange(pos as int, i + 1) =~= bytes@.subrange(pos as int, i as int)
                .push(bytes@[i as int]));
        }
        i = i + 1;
    }
    assert(text@ =~= chars_of(bytes@.subrange(pos as int, z as int)));
    Ok((text, z + 1))
}

} // verus!
