//! Text as the standard library has it.

use vstd::prelude::*;
use vstd::string::StringSliceAdditionalSpecFns;
use vstd::utf8::{
    encode_utf8, encode_utf8_valid_utf8, is_char_boundary, length_of_first_scalar, pop_first_scalar,
    valid_utf8,
};

verus! {

/// The error of `core::str::from_utf8`. Nothing is claimed of it.
#[verifier::external_type_specification]
#[verifier::external_body]
pub struct ExUtf8Error(core::str::Utf8Error);

/// `core::str::from_utf8`, which checks that bytes are UTF-8 and hands them back as text. The
/// contract claims that it succeeds on valid UTF-8 and on nothing else, and that the text has
/// the very bytes it was given.
pub assume_specification[ core::str::from_utf8 ](v: &[u8]) -> (result: Result<
    &str,
    core::str::Utf8Error,
>)
    ensures
        result is Ok <==> valid_utf8(v@),
        result matches Ok(s) ==> s.spec_bytes() == v@,
;

/// How the standard library writes a text with the format `{:?}`: in quotes, with escapes.
pub uninterp spec fn debug_text(text: Seq<char>) -> Seq<char>;

/// `<str as Debug>::fmt` through `format!`, which writes text in quotes, with escapes. The
/// contract claims that what is written depends on the text alone.
#[verifier::external_body]
pub(crate) fn format_debug(s: &str) -> (result: String)
    ensures
        result@ == debug_text(s@),
{
    format!("{:?}", s)
}

/// The length of `s` in bytes.
pub(crate) fn byte_len(s: &str) -> (len: usize)
    ensures
        len == encode_utf8(s@).len(),
{
    s.as_bytes().len()
}

/// Whether the bytes from `start` up to `end` are whole characters of the text `bytes`.
pub open spec fn is_slice(bytes: Seq<u8>, start: int, end: int) -> bool {
    &&& start <= end
    &&& is_char_boundary(bytes, start)
    &&& is_char_boundary(bytes, end)
}

/// The bytes of `s` from `start` up to `end`.
pub(crate) fn slice(s: &str, start: usize, end: usize) -> (result: &str)
    requires
        is_slice(encode_utf8(s@), start as int, end as int),
    ensures
        encode_utf8(result@) == encode_utf8(s@).subrange(start as int, end as int),
{
    let ghost bytes = encode_utf8(s@);
    proof {
        encode_utf8_valid_utf8(s@);
        lemma_boundary_in_tail(bytes, start as int, end as int);
    }
    let (_, tail) = s.split_at(start);
    let (result, _) = tail.split_at(end - start);
    assert(encode_utf8(result@) =~= bytes.subrange(start as int, end as int));
    result
}

/// A character boundary behind another one is a boundary of the text that starts there.
proof fn lemma_boundary_in_tail(bytes: Seq<u8>, start: int, end: int)
    requires
        valid_utf8(bytes),
        is_slice(bytes, start, end),
    ensures
        0 <= start,
        end <= bytes.len(),
        is_char_boundary(bytes.subrange(start, bytes.len() as int), end - start),
    decreases bytes.len(),
{
    if start == 0 {
        assert(bytes.subrange(0, bytes.len() as int) =~= bytes);
    } else {
        let width = length_of_first_scalar(bytes);
        let tail = pop_first_scalar(bytes);
        lemma_boundary_in_tail(tail, start - width, end - width);
        assert(bytes.subrange(start, bytes.len() as int) =~= tail.subrange(
            start - width,
            tail.len() as int,
        ));
    }
}

} // verus!
