//! From the bytes of a host buffer to the text that they carry.
//!
//! The host ends its text with a NUL byte. The text is what stands before the
//! first NUL of the buffer; a buffer that holds no NUL is read to its end, so
//! the scan never leaves the buffer.

use crate::error::Error;
use core::str::Utf8Error;
use vstd::prelude::*;
use vstd::slice::slice_subrange;
use vstd::string::StringSliceAdditionalSpecFns;
use vstd::utf8::{decode_utf8, encode_utf8_decode_utf8, valid_utf8};

verus! {

/// The reason `core::str::from_utf8` gives for a rejection. It is only ever
/// mapped to [`Error::InvalidUtf8`].
#[verifier::external_type_specification]
#[verifier::external_body]
pub struct ExUtf8Error(core::str::Utf8Error);

/// `core::str::from_utf8` accepts exactly the byte sequences that are valid
/// UTF-8, and the string slice it returns is made of the bytes it was given.
pub assume_specification[ core::str::from_utf8 ](v: &[u8]) -> (checked: Result<&str, Utf8Error>)
    ensures
        checked is Ok <==> valid_utf8(v@),
        checked matches Ok(text) ==> text.spec_bytes() == v@,
;

/// `n` is where the text of `buffer` ends: at the first NUL byte, or at the
/// end of a buffer that holds none.
pub open spec fn is_text_end(buffer: Seq<u8>, n: int) -> bool {
    &&& 0 <= n <= buffer.len()
    &&& forall|i: int| 0 <= i < n ==> buffer[i] != 0
    &&& n < buffer.len() ==> buffer[n] == 0
}

/// The number of bytes before the first NUL byte of `buffer`, or the length of
/// a buffer that holds none.
pub open spec fn text_len(buffer: Seq<u8>) -> int {
    choose|n: int| is_text_end(buffer, n)
}

/// The bytes of the text that `buffer` carries: those before its first NUL.
pub open spec fn text_bytes(buffer: Seq<u8>) -> Seq<u8> {
    buffer.take(text_len(buffer))
}

/// The text that `buffer` carries, or `None` where its bytes are not valid
/// UTF-8.
pub open spec fn decoded_text(buffer: Seq<u8>) -> Option<Seq<char>> {
    if valid_utf8(text_bytes(buffer)) {
        Some(decode_utf8(text_bytes(buffer)))
    } else {
        None
    }
}

/// A buffer's text ends in exactly one place.
pub proof fn lemma_text_end_unique(buffer: Seq<u8>, n: int)
    requires
        is_text_end(buffer, n),
    ensures
        text_len(buffer) == n,
        text_bytes(buffer) == buffer.take(n),
{
    let m = text_len(buffer);
    assert(is_text_end(buffer, m));
    if m < n {
        assert(buffer[m] == 0);
    } else if n < m {
        assert(buffer[n] == 0);
    }
}

/// The text never leaves the buffer and never holds a NUL byte: `text_len` is
/// a text end on every buffer, with or without a terminator in it.
pub proof fn lemma_text_within_buffer(buffer: Seq<u8>)
    ensures
        is_text_end(buffer, text_len(buffer)),
        text_bytes(buffer).len() == text_len(buffer),
        text_bytes(buffer).len() <= buffer.len(),
        forall|i: int| 0 <= i < text_bytes(buffer).len() ==> text_bytes(buffer)[i] != 0,
    decreases buffer.len(),
{
    if buffer.len() == 0 || buffer[0] == 0 {
        assert(is_text_end(buffer, 0));
    } else {
        let rest = buffer.skip(1);
        lemma_text_within_buffer(rest);
        let k = text_len(rest);
        assert forall|i: int| 0 <= i < k + 1 implies buffer[i] != 0 by {
            if i > 0 {
                assert(rest[i - 1] == buffer[i]);
            }
        }
        if k + 1 < buffer.len() {
            assert(rest[k] == buffer[k + 1]);
        }
        assert(is_text_end(buffer, k + 1));
    }
}

/// Finds where the text of `buffer` ends.
pub fn terminator_index(buffer: &[u8]) -> (n: usize)
    ensures
        n == text_len(buffer@),
        is_text_end(buffer@, n as int),
{
    let len: usize = buffer.len();
    let mut n: usize = 0;
    while n < len && buffer[n] != 0
        invariant
            len == buffer@.len(),
            n <= len,
            forall|i: int| 0 <= i < n ==> buffer@[i] != 0,
        decreases len - n,
    {
        n = n + 1;
    }
    proof {
        lemma_text_end_unique(buffer@, n as int);
    }
    n
}

/// Reads the text that the host left in `buffer`.
///
/// The bytes before the first NUL are taken as UTF-8. The result borrows them:
/// nothing is copied. Bytes that are not valid UTF-8 at any point, a cut-off
/// multi-byte sequence included, are reported as [`Error::InvalidUtf8`].
pub fn str_from_cstr(buffer: &[u8]) -> (text: Result<&str, Error>)
    ensures
        match text {
            Ok(s) => decoded_text(buffer@) == Some(s@),
            Err(e) => e == Error::InvalidUtf8() && decoded_text(buffer@) is None,
        },
{
    let end: usize = terminator_index(buffer);
    let bytes: &[u8] = slice_subrange(buffer, 0, end);
    assert(bytes@ == text_bytes(buffer@));
    match core::str::from_utf8(bytes) {
        Ok(s) => {
            proof {
                encode_utf8_decode_utf8(s@);
            }
            Ok(s)
        },
        Err(_) => Err(Error::InvalidUtf8()),
    }
}

} // verus!
