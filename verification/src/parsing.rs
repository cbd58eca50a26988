use vstd::prelude::*;
use vstd::utf8::{
    decode_first_scalar, is_continuation_byte, is_leading_byte_width_2, is_leading_byte_width_3,
    is_leading_byte_width_4, valid_first_scalar,
};

verus! {

// Reading one character out of a byte buffer: the UTF-8 decoder for the
// first scalar, stated against the standard encoding rules.
/// How reading a character can fail: the buffer ends inside a character,
/// or holds bytes that no character decodes from. (A failure of the
/// byte source itself has its own kind; a plain buffer never produces
/// it.)
#[derive(Clone, Copy, Debug, PartialEq, Eq, Structural)]
pub enum CharReadError {
    UnexpectedEof,
    Utf8,
    Io,
}

/// Relies on `char::from_u32`: it returns the character with the given
/// scalar value, and nothing exactly for the surrogate range and the
/// values above the Unicode maximum.
#[verifier::external_body]
fn char_from_u32(v: u32) -> (r: Option<char>)
    ensures
        (r is Some) <==> (v < 0xD800 || (0xE000 <= v && v <= 0x10FFFF)),
        r matches Some(c) ==> c as u32 == v,
{
    char::from_u32(v)
}

/// The buffer starts with an incomplete character: a leading byte whose
/// width reaches past the end, with only continuation bytes after it.
pub open spec fn first_char_incomplete(bytes: Seq<u8>) -> bool {
    &&& bytes.len() >= 1
    &&& (forall|j: int| 1 <= j < bytes.len() ==> is_continuation_byte(#[trigger] bytes[j]))
    &&& ((is_leading_byte_width_2(bytes[0]) && bytes.len() < 2) || (is_leading_byte_width_3(
        bytes[0],
    ) && bytes.len() < 3) || (is_leading_byte_width_4(bytes[0]) && bytes.len() < 4))
}

/// Decodes the first character of the buffer: nothing from an empty
/// buffer, the first scalar when the buffer starts with a well-formed
/// encoding, an end-of-input error when the buffer stops inside a
/// character, and an encoding error otherwise.
pub fn next_char_from(source: &[u8]) -> (r: Result<Option<char>, CharReadError>)
    ensures
        source@.len() == 0 ==> r == Ok::<Option<char>, CharReadError>(None),
        valid_first_scalar(source@) ==> (r matches Ok(oc) && oc matches Some(c) && c as u32
            == decode_first_scalar(source@)),
        source@.len() > 0 && !valid_first_scalar(source@) ==> r is Err,
        source@.len() > 0 && !valid_first_scalar(source@) && first_char_incomplete(source@) ==> r
            == Err::<Option<char>, CharReadError>(CharReadError::UnexpectedEof),
{
    let n = source.len();
    if n == 0 {
        return Ok(None);
    }
    let b0 = *vstd::slice::slice_index_get(source, 0);
    if b0 <= 0x7f {
        // One byte: the codepoint is the byte.
        proof {
            assert(b0 <= 0x7f ==> (b0 & 0x7f) == b0) by (bit_vector);
        }
        match char_from_u32(b0 as u32) {
            Some(c) => Ok(Some(c)),
            None => Err(CharReadError::Utf8),
        }
    } else if 0xc0 <= b0 && b0 <= 0xdf {
        if n < 2 {
            if incomplete_tail(source, n) {
                return Err(CharReadError::UnexpectedEof);
            }
            return Err(CharReadError::Utf8);
        }
        let b1 = *vstd::slice::slice_index_get(source, 1);
        if !(0x80 <= b1 && b1 <= 0xbf) {
            return Err(CharReadError::Utf8);
        }
        let cp: u32 = (((b0 & 0x1f) as u32) << 6) | ((b1 & 0x3f) as u32);
        proof {
            assert(((((b0 & 0x1f) as u32) << 6) | ((b1 & 0x3f) as u32)) <= 0x7ff)
                by (bit_vector);
        }
        if cp < 0x80 {
            return Err(CharReadError::Utf8);
        }
        match char_from_u32(cp) {
            Some(c) => Ok(Some(c)),
            None => Err(CharReadError::Utf8),
        }
    } else if 0xe0 <= b0 && b0 <= 0xef {
        if n < 3 {
            if incomplete_tail(source, n) {
                return Err(CharReadError::UnexpectedEof);
            }
            return Err(CharReadError::Utf8);
        }
        let b1 = *vstd::slice::slice_index_get(source, 1);
        let b2 = *vstd::slice::slice_index_get(source, 2);
        if !(0x80 <= b1 && b1 <= 0xbf) || !(0x80 <= b2 && b2 <= 0xbf) {
            return Err(CharReadError::Utf8);
        }
        let cp: u32 = (((b0 & 0x0f) as u32) << 12) | (((b1 & 0x3f) as u32) << 6) | ((b2
            & 0x3f) as u32);
        proof {
            assert((((((b0 & 0x0f) as u32) << 12) | (((b1 & 0x3f) as u32) << 6)) | ((b2
                & 0x3f) as u32)) <= 0xffff) by (bit_vector);
        }
        if cp < 0x800 {
            return Err(CharReadError::Utf8);
        }
        match char_from_u32(cp) {
            Some(c) => Ok(Some(c)),
            None => Err(CharReadError::Utf8),
        }
    } else if 0xf0 <= b0 && b0 <= 0xf7 {
        if n < 4 {
            if incomplete_tail(source, n) {
                return Err(CharReadError::UnexpectedEof);
            }
            return Err(CharReadError::Utf8);
        }
        let b1 = *vstd::slice::slice_index_get(source, 1);
        let b2 = *vstd::slice::slice_index_get(source, 2);
        let b3 = *vstd::slice::slice_index_get(source, 3);
        if !(0x80 <= b1 && b1 <= 0xbf) || !(0x80 <= b2 && b2 <= 0xbf) || !(0x80 <= b3 && b3
            <= 0xbf) {
            return Err(CharReadError::Utf8);
        }
        let cp: u32 = (((b0 & 0x07) as u32) << 18) | (((b1 & 0x3f) as u32) << 12) | (((b2
            & 0x3f) as u32) << 6) | ((b3 & 0x3f) as u32);
        if cp < 0x10000 || cp > 0x10ffff {
            return Err(CharReadError::Utf8);
        }
        match char_from_u32(cp) {
            Some(c) => Ok(Some(c)),
            None => Err(CharReadError::Utf8),
        }
    } else {
        Err(CharReadError::Utf8)
    }
}

/// Are the bytes from position 1 up to `upto` all continuation bytes?
fn incomplete_tail(source: &[u8], upto: usize) -> (r: bool)
    requires
        upto <= source@.len(),
    ensures
        r == (forall|j: int| 1 <= j < upto ==> is_continuation_byte(#[trigger] source@[j])),
{
    let mut j: usize = 1;
    while j < upto
        invariant
            1 <= j,
            upto <= source@.len(),
            forall|i: int| 1 <= i < j ==> is_continuation_byte(#[trigger] source@[i]),
        decreases upto - j,
    {
        let b = *vstd::slice::slice_index_get(source, j);
        if !(0x80 <= b && b <= 0xbf) {
            return false;
        }
        j = j + 1;
    }
    true
}

} // verus!
