//! Short text that is kept in the string itself.

use vstd::prelude::*;
use vstd::slice::slice_subrange;
use vstd::utf8::{
    decode_utf8, decode_utf8_encode_utf8, encode_utf8, encode_utf8_decode_utf8, valid_utf8,
};

use crate::storage::{law_length_tags, StrLen, INLINE_LEN};

verus! {

/// Up to fifteen bytes of text, padded with zeros.
#[derive(Clone, Copy)]
pub(crate) struct Inline {
    bytes: [u8; 15],
    len: StrLen,
}

/// Whether `bytes` hold text of length `len` and zeros behind it.
pub(crate) open spec fn padded_text(bytes: Seq<u8>, len: StrLen) -> bool {
    &&& bytes.len() == INLINE_LEN
    &&& len != StrLen::Addr
    &&& valid_utf8(bytes.take(len.value() as int))
    &&& forall|i: int| len.value() <= i < INLINE_LEN ==> bytes[i] == 0
}

impl Inline {
    /// The bytes that are text.
    pub(crate) closed spec fn content(self) -> Seq<u8> {
        self.bytes@.take(self.len.value() as int)
    }

    /// The tag that holds the length.
    pub(crate) closed spec fn tag(self) -> StrLen {
        self.len
    }

    /// The text.
    pub(crate) open spec fn text(self) -> Seq<char> {
        decode_utf8(self.content())
    }

    /// There is text, it is UTF-8, and the rest is zero.
    pub(crate) closed spec fn wf(self) -> bool {
        padded_text(self.bytes@, self.len)
    }

    /// Text of length `len` at the front of `bytes`.
    #[must_use]
    pub(crate) fn new(bytes: [u8; 15], len: StrLen) -> (inline: Self)
        requires
            padded_text(bytes@, len),
        ensures
            inline.wf(),
            inline.content() == bytes@.take(len.value() as int),
            inline.tag() == len,
    {
        Inline { bytes, len }
    }

    /// The length tag.
    #[must_use]
    pub(crate) fn footer(&self) -> (len: StrLen)
        ensures
            len == self.tag(),
    {
        self.len
    }

    /// The length of the text in bytes.
    #[must_use]
    pub(crate) fn len(&self) -> (len: usize)
        requires
            self.wf(),
        ensures
            len == encode_utf8(self.text()).len(),
    {
        proof {
            self.lemma_text();
        }
        self.len.as_usize()
    }

    /// The text.
    #[must_use]
    pub(crate) fn as_str(&self) -> (s: &str)
        requires
            self.wf(),
        ensures
            s@ == self.text(),
    {
        let content = slice_subrange(self.bytes.as_slice(), 0, self.len.as_usize());
        assert(content@ =~= self.content());
        let s = core::str::from_utf8(content).unwrap();
        proof {
            encode_utf8_decode_utf8(s@);
        }
        s
    }

    /// The tag is the length of the text, one to fifteen, and every byte behind the text is zero.
    proof fn law_padded(self, i: int)
        requires
            self.wf(),
        ensures
            1 <= encode_utf8(self.text()).len() <= 15,
            encode_utf8(self.text()) == self.bytes@.take(self.len as int),
            encode_utf8(self.text()).len() == self.len as int,
            encode_utf8(self.text()).len() <= i < 15 ==> self.bytes@[i] == 0,
    {
        self.lemma_text();
        law_length_tags(self.len, self.len, 0);
    }

    /// The text is what its bytes encode, and there are one to fifteen of them.
    pub(crate) proof fn lemma_text(self)
        requires
            self.wf(),
        ensures
            encode_utf8(self.text()) == self.content(),
            1 <= self.content().len() <= INLINE_LEN,
            self.content().len() == self.tag().value(),
            self.tag() != StrLen::Addr,
    {
        decode_utf8_encode_utf8(self.content());
    }
}

} // verus!
