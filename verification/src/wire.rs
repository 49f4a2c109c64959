//! The fields of the record format: little-endian integers, tag bytes,
//! 32-byte identifiers and length-prefixed UTF-8 text, each read at an
//! offset of a byte region.

use vstd::prelude::*;
use vstd::slice::{slice_subrange, slice_to_vec};
use vstd::utf8::{decode_utf8, valid_utf8};
use crate::error::DecodeError;
use crate::pubkey::Pubkey;

verus! {

/// The region holds `width` bytes from offset `at` on.
pub open spec fn holds(bytes: Seq<u8>, at: int, width: int) -> bool {
    0 <= at && 0 <= width && at + width <= bytes.len()
}

/// The unsigned 16-bit number whose little-endian bytes start at `at`.
pub open spec fn le_u16(bytes: Seq<u8>, at: int) -> u16 {
    (bytes[at] + 0x100 * bytes[at + 1]) as u16
}

/// The unsigned 32-bit number whose little-endian bytes start at `at`.
pub open spec fn le_u32(bytes: Seq<u8>, at: int) -> u32 {
    (bytes[at] + 0x100 * bytes[at + 1] + 0x1_0000 * bytes[at + 2] + 0x100_0000 * bytes[at + 3]) as u32
}

/// The unsigned 64-bit number whose little-endian bytes start at `at`.
pub open spec fn le_u64(bytes: Seq<u8>, at: int) -> u64 {
    (le_u32(bytes, at) + 0x1_0000_0000 * le_u32(bytes, at + 4)) as u64
}

/// The signed 32-bit number whose little-endian two's-complement bytes start
/// at `at`.
pub open spec fn le_i32(bytes: Seq<u8>, at: int) -> i32 {
    let unsigned = le_u32(bytes, at);
    if unsigned < 0x8000_0000 {
        unsigned as i32
    } else {
        (unsigned - 0x1_0000_0000) as i32
    }
}

/// The unsigned 128-bit number whose little-endian bytes start at `at`.
pub open spec fn le_u128(bytes: Seq<u8>, at: int) -> u128 {
    (le_u64(bytes, at) + 0x1_0000_0000_0000_0000 * le_u64(bytes, at + 8)) as u128
}

/// The signed 64-bit number whose little-endian two's-complement bytes start
/// at `at`.
pub open spec fn le_i64(bytes: Seq<u8>, at: int) -> i64 {
    let unsigned = le_u64(bytes, at);
    if unsigned < 0x8000_0000_0000_0000 {
        unsigned as i64
    } else {
        (unsigned - 0x1_0000_0000_0000_0000) as i64
    }
}

/// The text field that starts at `at`: a 32-bit length, then that many bytes
/// of UTF-8. The result is the text and the offset of the field after it.
pub open spec fn text_at(bytes: Seq<u8>, at: int) -> Result<(Seq<char>, int), DecodeError> {
    if !holds(bytes, at, 4) {
        Err(DecodeError::UnexpectedLength)
    } else {
        let end = at + 4 + le_u32(bytes, at);
        if bytes.len() < end {
            Err(DecodeError::UnexpectedLength)
        } else if !valid_utf8(bytes.subrange(at + 4, end)) {
            Err(DecodeError::InvalidUtf8)
        } else {
            Ok((decode_utf8(bytes.subrange(at + 4, end)), end))
        }
    }
}

/// Reads the byte at `at`.
pub fn read_u8(bytes: &[u8], at: usize) -> (field: Result<u8, DecodeError>)
    ensures
        holds(bytes@, at as int, 1) ==> field == Ok::<u8, DecodeError>(bytes@[at as int]),
        !holds(bytes@, at as int, 1) ==> field == Err::<u8, DecodeError>(
            DecodeError::UnexpectedLength,
        ),
{
    if at >= bytes.len() {
        return Err(DecodeError::UnexpectedLength);
    }
    Ok(bytes[at])
}

/// Reads a little-endian `u16` at `at`.
pub fn read_u16(bytes: &[u8], at: usize) -> (field: Result<u16, DecodeError>)
    ensures
        holds(bytes@, at as int, 2) ==> field == Ok::<u16, DecodeError>(le_u16(bytes@, at as int)),
        !holds(bytes@, at as int, 2) ==> field == Err::<u16, DecodeError>(
            DecodeError::UnexpectedLength,
        ),
{
    if at > bytes.len() || bytes.len() - at < 2 {
        return Err(DecodeError::UnexpectedLength);
    }
    Ok(bytes[at] as u16 + 0x100 * (bytes[at + 1] as u16))
}

/// Reads a little-endian `u32` at `at`.
pub fn read_u32(bytes: &[u8], at: usize) -> (field: Result<u32, DecodeError>)
    ensures
        holds(bytes@, at as int, 4) ==> field == Ok::<u32, DecodeError>(le_u32(bytes@, at as int)),
        !holds(bytes@, at as int, 4) ==> field == Err::<u32, DecodeError>(
            DecodeError::UnexpectedLength,
        ),
{
    if at > bytes.len() || bytes.len() - at < 4 {
        return Err(DecodeError::UnexpectedLength);
    }
    Ok(
        bytes[at] as u32 + 0x100 * (bytes[at + 1] as u32) + 0x1_0000 * (bytes[at + 2] as u32)
            + 0x100_0000 * (bytes[at + 3] as u32),
    )
}

/// Reads a little-endian `u64` at `at`.
pub fn read_u64(bytes: &[u8], at: usize) -> (field: Result<u64, DecodeError>)
    ensures
        holds(bytes@, at as int, 8) ==> field == Ok::<u64, DecodeError>(le_u64(bytes@, at as int)),
        !holds(bytes@, at as int, 8) ==> field == Err::<u64, DecodeError>(
            DecodeError::UnexpectedLength,
        ),
{
    if at > bytes.len() || bytes.len() - at < 8 {
        return Err(DecodeError::UnexpectedLength);
    }
    let low = read_u32(bytes, at)?;
    let high = read_u32(bytes, at + 4)?;
    Ok(low as u64 + 0x1_0000_0000 * (high as u64))
}

/// Reads a little-endian two's-complement `i32` at `at`.
pub fn read_i32(bytes: &[u8], at: usize) -> (field: Result<i32, DecodeError>)
    ensures
        holds(bytes@, at as int, 4) ==> field == Ok::<i32, DecodeError>(le_i32(bytes@, at as int)),
        !holds(bytes@, at as int, 4) ==> field == Err::<i32, DecodeError>(
            DecodeError::UnexpectedLength,
        ),
{
    let unsigned = read_u32(bytes, at)?;
    if unsigned < 0x8000_0000 {
        Ok(unsigned as i32)
    } else {
        Ok((unsigned - 0x8000_0000) as i32 - 0x7fff_ffff - 1)
    }
}

/// Reads a little-endian `u128` at `at`.
pub fn read_u128(bytes: &[u8], at: usize) -> (field: Result<u128, DecodeError>)
    ensures
        holds(bytes@, at as int, 16) ==> field == Ok::<u128, DecodeError>(
            le_u128(bytes@, at as int),
        ),
        !holds(bytes@, at as int, 16) ==> field == Err::<u128, DecodeError>(
            DecodeError::UnexpectedLength,
        ),
{
    if at > bytes.len() || bytes.len() - at < 16 {
        return Err(DecodeError::UnexpectedLength);
    }
    let low = read_u64(bytes, at)?;
    let high = read_u64(bytes, at + 8)?;
    Ok(low as u128 + 0x1_0000_0000_0000_0000 * (high as u128))
}

/// Reads a little-endian two's-complement `i64` at `at`.
pub fn read_i64(bytes: &[u8], at: usize) -> (field: Result<i64, DecodeError>)
    ensures
        holds(bytes@, at as int, 8) ==> field == Ok::<i64, DecodeError>(le_i64(bytes@, at as int)),
        !holds(bytes@, at as int, 8) ==> field == Err::<i64, DecodeError>(
            DecodeError::UnexpectedLength,
        ),
{
    let unsigned = read_u64(bytes, at)?;
    if unsigned < 0x8000_0000_0000_0000 {
        Ok(unsigned as i64)
    } else {
        Ok((unsigned - 0x8000_0000_0000_0000) as i64 - 0x7fff_ffff_ffff_ffff - 1)
    }
}

/// Reads a truth value at `at`: one byte, 0 or 1.
pub fn read_bool(bytes: &[u8], at: usize) -> (field: Result<bool, DecodeError>)
    ensures
        !holds(bytes@, at as int, 1) ==> field == Err::<bool, DecodeError>(
            DecodeError::UnexpectedLength,
        ),
        holds(bytes@, at as int, 1) && bytes@[at as int] > 1 ==> field == Err::<bool, DecodeError>(
            DecodeError::InvalidBool,
        ),
        holds(bytes@, at as int, 1) && bytes@[at as int] <= 1 ==> field == Ok::<bool, DecodeError>(
            bytes@[at as int] == 1,
        ),
{
    let byte = read_u8(bytes, at)?;
    if byte == 0 {
        Ok(false)
    } else if byte == 1 {
        Ok(true)
    } else {
        Err(DecodeError::InvalidBool)
    }
}

/// Reads `N` bytes at `at` as they stand.
pub fn read_array<const N: usize>(bytes: &[u8], at: usize) -> (field: Result<[u8; N], DecodeError>)
    ensures
        holds(bytes@, at as int, N as int) ==> field is Ok && field->Ok_0@ == bytes@.subrange(
            at as int,
            at + N,
        ),
        !holds(bytes@, at as int, N as int) ==> field == Err::<[u8; N], DecodeError>(
            DecodeError::UnexpectedLength,
        ),
{
    if at > bytes.len() || bytes.len() - at < N {
        return Err(DecodeError::UnexpectedLength);
    }
    let mut array: [u8; N] = [0u8; N];
    let mut i: usize = 0;
    while i < N
        invariant
            i <= N,
            at + N <= bytes.len(),
            forall|j: int| 0 <= j < i ==> array@[j] == bytes@[at + j],
        decreases N - i,
    {
        array[i] = bytes[at + i];
        i += 1;
    }
    assert(array@ =~= bytes@.subrange(at as int, at + N));
    Ok(array)
}

/// Reads the 32 bytes of an identifier at `at`.
pub fn read_pubkey(bytes: &[u8], at: usize) -> (field: Result<Pubkey, DecodeError>)
    ensures
        holds(bytes@, at as int, 32) ==> field is Ok && field->Ok_0@ == bytes@.subrange(
            at as int,
            at + 32,
        ),
        !holds(bytes@, at as int, 32) ==> field == Err::<Pubkey, DecodeError>(
            DecodeError::UnexpectedLength,
        ),
{
    let key = read_array::<32>(bytes, at)?;
    Ok(Pubkey { bytes: key })
}

/// `String::from_utf8` of the standard library: the text that the bytes
/// encode, or nothing where they are not UTF-8.
#[verifier::external_body]
fn string_from_utf8(bytes: Vec<u8>) -> (text: Option<String>)
    ensures
        text is Some <==> valid_utf8(bytes@),
        text is Some ==> text->Some_0@ == decode_utf8(bytes@),
{
    String::from_utf8(bytes).ok()
}

/// Reads the text field at `at`, and gives the offset of the field after it.
pub fn read_text(bytes: &[u8], at: usize) -> (field: Result<(String, usize), DecodeError>)
    ensures
        match field {
            Ok((text, next)) => text_at(bytes@, at as int) == Ok::<(Seq<char>, int), DecodeError>(
                (text@, next as int),
            ),
            Err(e) => text_at(bytes@, at as int) == Err::<(Seq<char>, int), DecodeError>(e),
        },
{
    let len = read_u32(bytes, at)?;
    let available = bytes.len();
    let start = at + 4;
    if len as usize > available - start {
        return Err(DecodeError::UnexpectedLength);
    }
    let end = start + len as usize;
    let body = slice_to_vec(slice_subrange(bytes, start, end));
    match string_from_utf8(body) {
        Some(text) => Ok((text, end)),
        None => Err(DecodeError::InvalidUtf8),
    }
}

} // verus!
