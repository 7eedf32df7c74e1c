//! Text as the terminal and the serial link carry it: UTF-8 bytes.

use vstd::prelude::*;
use vstd::slice::{slice_subrange, slice_to_vec};
use vstd::utf8::{encode_utf8, valid_utf8};

verus! {

/// `String::push` of the standard library: it appends the character to the
/// end of the string. Trusted as documented there.
pub assume_specification[ String::push ](text: &mut String, ch: char)
    ensures
        final(text)@ == old(text)@.push(ch),
;

/// Calls `String::from_utf8` of the standard library, which accepts the
/// bytes exactly where they are valid UTF-8 and makes them, unchanged, the
/// bytes of the string. Trusted as documented there.
#[verifier::external_body]
pub(crate) fn decode(bytes: Vec<u8>) -> (text: Option<String>)
    ensures
        text is Some <==> valid_utf8(bytes@),
        text matches Some(decoded) ==> encode_utf8(decoded@) == bytes@,
{
    match String::from_utf8(bytes) {
        Ok(decoded) => Some(decoded),
        Err(_) => None,
    }
}

/// The first `width` bytes of `bytes`, or all of them where there are no
/// more than `width`.
pub open spec fn truncated(bytes: Seq<u8>, width: int) -> Seq<u8> {
    if bytes.len() > width {
        bytes.take(width)
    } else {
        bytes
    }
}

/// The bytes of `line` cut to at most `width` bytes.
///
/// The cut counts bytes, not characters: it may fall inside a character
/// that takes several bytes, and what is left of that character goes to the
/// terminal as it is.
pub fn truncate(line: &str, width: usize) -> (out: Vec<u8>)
    ensures
        out@ == truncated(encode_utf8(line@), width as int),
{
    let bytes = line.as_bytes();
    if bytes.len() > width {
        slice_to_vec(slice_subrange(bytes, 0, width))
    } else {
        slice_to_vec(bytes)
    }
}

} // verus!
