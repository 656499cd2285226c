//! Ways to reach the text of a string.

use std::borrow::Borrow;
use std::hash::{Hash, Hasher};
use std::ops::{Deref, Index, Range};

use vstd::prelude::*;
use vstd::utf8::{encode_utf8, is_char_boundary};

use crate::hashing::{feed, hash_text, Hold};
use crate::model::StrModel;
use crate::smart_str::SmartStr;
use crate::text::{debug_text, format_debug, is_slice, slice};

verus! {

/// Whether `s` has the text `text`.
pub open spec fn reads(s: &str, text: Seq<char>) -> bool {
    s@ == text
}

/// Whether `state` moves as hashing a `str` with the text `text` moves it.
pub open spec fn hashes_as<H: Hasher>(text: Seq<char>, state: &mut H) -> bool {
    exists|s: &str| #[trigger] reads(s, text) && call_ensures(hash_text::<H>, (s, state), ())
}

/// A `str` reads as a text if and only if its characters are that text.
pub proof fn law_reads(s: &str, text: Seq<char>)
    ensures
        reads(s, text) <==> s@ == text,
        reads(s, s@),
{
}

impl Deref for SmartStr {
    type Target = str;

    fn deref(&self) -> (s: &str)
        ensures
            reads(s, self@.text),
    {
        self.as_str()
    }
}

impl AsRef<str> for SmartStr {
    fn as_ref(&self) -> (s: &str)
        ensures
            reads(s, self@.text),
    {
        self.as_str()
    }
}

impl Borrow<str> for SmartStr {
    fn borrow(&self) -> (s: &str)
        ensures
            reads(s, self@.text),
    {
        self.as_str()
    }
}

impl Hash for SmartStr {
    /// Hashes the text, so that a string hashes like its text wherever that is kept: the state
    /// moves as hashing that text moves it.
    fn hash<H: Hasher>(&self, state: &mut H)
        ensures
            hashes_as(self@.text, state),
            exists|s: &str| #[trigger]
                reads(s, self@.text) && s@ == self@.text && call_ensures(
                    hash_text::<H>,
                    (s, state),
                    (),
                ),
    {
        let s = self.as_str();
        let held = Hold(state);
        feed(hash_text::<H>, s, held);
        assert(reads(s, self@.text));
    }
}

/// Strings with the same text hash alike, wherever each keeps it: what hashing one of them may do
/// to a hasher, hashing the other may do, and nothing else.
pub proof fn law_hash_by_text<H: Hasher>(a: StrModel, b: StrModel, state: &mut H)
    requires
        a.text == b.text,
    ensures
        hashes_as(a.text, state) == hashes_as(b.text, state),
{
}

/// A hasher moves as for a text if and only if it moves as for some `str` with those characters.
pub proof fn law_hash_of_text<H: Hasher>(text: Seq<char>, state: &mut H)
    ensures
        hashes_as(text, state) <==> exists|s: &str| #[trigger]
            reads(s, text) && s@ == text && call_ensures(hash_text::<H>, (s, state), ()),
{
}

impl Index<Range<usize>> for SmartStr {
    type Output = str;

    fn index(&self, range: Range<usize>) -> (s: &str)
        ensures
            encode_utf8(s@) == encode_utf8(self@.text).subrange(
                range.start as int,
                range.end as int,
            ),
    {
        slice(self.as_str(), range.start, range.end)
    }
}

impl vstd::std_specs::core::IndexSpecImpl<Range<usize>> for SmartStr {
    open spec fn index_req(&self, range: &Range<usize>) -> bool {
        is_slice(self@.bytes(), range.start as int, range.end as int)
    }
}

/// Strings that are equal hash alike, as a key of a map must.
pub proof fn law_equal_hash_alike<H: Hasher>(a: SmartStr, b: SmartStr, state: &mut H)
    requires
        vstd::std_specs::cmp::PartialEqSpec::eq_spec(&a, &b),
    ensures
        hashes_as(a@.text, state) == hashes_as(b@.text, state),
{
}

/// Following a string to its text gives that text.
pub proof fn law_deref(s: SmartStr, text: &str)
    requires
        call_ensures(SmartStr::deref, (&s,), text),
    ensures
        text@ == s@.text,
{
}

/// A range can be asked for if and only if it ends no earlier than it starts and both its ends
/// are character boundaries of the text in UTF-8. What is given are the bytes from the one up to
/// the other.
pub proof fn law_index(s: SmartStr, range: Range<usize>, part: &str)
    ensures
        vstd::std_specs::core::IndexSpec::index_req(&s, &range) <==> range.start <= range.end
            && is_char_boundary(encode_utf8(s@.text), range.start as int) && is_char_boundary(
            encode_utf8(s@.text),
            range.end as int,
        ),
        call_ensures(SmartStr::index, (&s, range), part) ==> encode_utf8(part@) == encode_utf8(
            s@.text,
        ).subrange(range.start as int, range.end as int),
{
}

impl SmartStr {
    /// The text as a string of the standard library.
    #[must_use]
    pub fn to_string(&self) -> (result: String)
        ensures
            result@ == self@.text,
    {
        self.as_str().to_owned()
    }

    /// The text in quotes, with escapes, as `{:?}` writes it.
    #[must_use]
    pub fn to_debug_string(&self) -> (result: String)
        ensures
            result@ == debug_text(self@.text),
    {
        format_debug(self.as_str())
    }
}

} // verus!
