//! How strings compare: by their text, wherever that is kept.

use std::cmp::Ordering;

use vstd::prelude::*;
use vstd::std_specs::cmp::{PartialEqSpec, PartialOrdSpec};
use vstd::utf8::{encode_utf8, encode_utf8_decode_utf8};

use crate::bytes::{
    law_first_difference, law_precedes_asymmetric, law_precedes_total, law_precedes_transitive,
    law_prefix_first, precedes, side, Side,
};
use crate::smart_str::SmartStr;

verus! {

/// How two texts compare: byte by byte in UTF-8.
pub open spec fn text_order(a: Seq<char>, b: Seq<char>) -> Ordering {
    if a == b {
        Ordering::Equal
    } else if precedes(encode_utf8(a), encode_utf8(b)) {
        Ordering::Less
    } else {
        Ordering::Greater
    }
}

/// Texts with the same bytes are the same.
proof fn lemma_same_bytes(a: Seq<char>, b: Seq<char>)
    requires
        encode_utf8(a) == encode_utf8(b),
    ensures
        a == b,
{
    encode_utf8_decode_utf8(a);
    encode_utf8_decode_utf8(b);
}

/// Compares two texts.
pub(crate) fn compare(a: &str, b: &str) -> (order: Ordering)
    ensures
        order == text_order(a@, b@),
{
    match side(a.as_bytes(), b.as_bytes()) {
        Side::Before => {
            proof {
                law_precedes_asymmetric(encode_utf8(a@), encode_utf8(b@));
            }
            Ordering::Less
        },
        Side::Same => {
            proof {
                lemma_same_bytes(a@, b@);
            }
            Ordering::Equal
        },
        Side::Behind => {
            proof {
                law_precedes_asymmetric(encode_utf8(b@), encode_utf8(a@));
            }
            Ordering::Greater
        },
    }
}

/// At the first byte where two texts differ, wherever that is, the one with the smaller byte is
/// the lesser, whatever follows.
pub proof fn law_order_first_difference(
    a: Seq<char>,
    b: Seq<char>,
    p: Seq<u8>,
    x: u8,
    y: u8,
    u: Seq<u8>,
    v: Seq<u8>,
)
    requires
        encode_utf8(a) == p.push(x) + u,
        encode_utf8(b) == p.push(y) + v,
        x < y,
    ensures
        text_order(a, b) == Ordering::Less,
        text_order(b, a) == Ordering::Greater,
{
    law_first_difference(p, x, y, u, v);
}

/// A text is less than every longer one whose bytes start with its bytes.
pub proof fn law_order_prefix(a: Seq<char>, b: Seq<char>, rest: Seq<u8>)
    requires
        encode_utf8(b) == encode_utf8(a) + rest,
        rest.len() > 0,
    ensures
        text_order(a, b) == Ordering::Less,
        text_order(b, a) == Ordering::Greater,
{
    law_prefix_first(encode_utf8(a), rest);
    assert(encode_utf8(b).len() > encode_utf8(a).len());
}

/// Texts compare as equal if and only if they are the same, and swapping two texts swaps how
/// they compare.
pub proof fn law_order_antisymmetric(a: Seq<char>, b: Seq<char>)
    ensures
        text_order(a, b) == Ordering::Equal <==> a == b,
        text_order(a, b) == Ordering::Less <==> text_order(b, a) == Ordering::Greater,
{
    let x = encode_utf8(a);
    let y = encode_utf8(b);
    if a != b {
        law_precedes_total(x, y);
        if x == y {
            lemma_same_bytes(a, b);
        }
        if precedes(x, y) {
            law_precedes_asymmetric(x, y);
        } else {
            law_precedes_asymmetric(y, x);
        }
    }
}

/// A text before a second one that is before a third is before the third.
pub proof fn law_order_transitive(a: Seq<char>, b: Seq<char>, c: Seq<char>)
    requires
        text_order(a, b) == Ordering::Less,
        text_order(b, c) == Ordering::Less,
    ensures
        text_order(a, c) == Ordering::Less,
{
    law_precedes_transitive(encode_utf8(a), encode_utf8(b), encode_utf8(c));
    law_precedes_asymmetric(encode_utf8(a), encode_utf8(c));
}

/// Whether two texts are the same.
pub(crate) fn equal(a: &str, b: &str) -> (result: bool)
    ensures
        result == (a@ == b@),
{
    match compare(a, b) {
        Ordering::Equal => true,
        _ => false,
    }
}

impl SmartStr {
    /// Compares the texts of two strings.
    #[must_use]
    pub fn cmp(&self, other: &SmartStr) -> (order: Ordering)
        ensures
            order == text_order(self@.text, other@.text),
    {
        compare(self.as_str(), other.as_str())
    }
}

impl PartialEq for SmartStr {
    fn eq(&self, other: &SmartStr) -> (result: bool) {
        equal(self.as_str(), other.as_str())
    }
}

impl vstd::std_specs::cmp::PartialEqSpecImpl for SmartStr {
    open spec fn obeys_eq_spec() -> bool {
        true
    }

    open spec fn eq_spec(&self, other: &SmartStr) -> bool {
        self@.text == other@.text
    }
}

impl Eq for SmartStr {

}

impl PartialOrd for SmartStr {
    fn partial_cmp(&self, other: &SmartStr) -> (order: Option<Ordering>) {
        Some(compare(self.as_str(), other.as_str()))
    }
}

impl vstd::std_specs::cmp::PartialOrdSpecImpl for SmartStr {
    open spec fn obeys_partial_cmp_spec() -> bool {
        true
    }

    open spec fn partial_cmp_spec(&self, other: &SmartStr) -> Option<Ordering> {
        Some(text_order(self@.text, other@.text))
    }
}

impl PartialEq<str> for SmartStr {
    fn eq(&self, other: &str) -> (result: bool) {
        equal(self.as_str(), other)
    }
}

impl vstd::std_specs::cmp::PartialEqSpecImpl<str> for SmartStr {
    open spec fn obeys_eq_spec() -> bool {
        true
    }

    open spec fn eq_spec(&self, other: &str) -> bool {
        self@.text == other@
    }
}

impl PartialOrd<str> for SmartStr {
    fn partial_cmp(&self, other: &str) -> (order: Option<Ordering>) {
        Some(compare(self.as_str(), other))
    }
}

impl vstd::std_specs::cmp::PartialOrdSpecImpl<str> for SmartStr {
    open spec fn obeys_partial_cmp_spec() -> bool {
        true
    }

    open spec fn partial_cmp_spec(&self, other: &str) -> Option<Ordering> {
        Some(text_order(self@.text, other@))
    }
}

impl<'a> PartialEq<&'a str> for SmartStr {
    fn eq(&self, other: &&'a str) -> (result: bool) {
        equal(self.as_str(), *other)
    }
}

impl<'a> vstd::std_specs::cmp::PartialEqSpecImpl<&'a str> for SmartStr {
    open spec fn obeys_eq_spec() -> bool {
        true
    }

    open spec fn eq_spec(&self, other: &&'a str) -> bool {
        self@.text == other@
    }
}

impl<'a> PartialOrd<&'a str> for SmartStr {
    fn partial_cmp(&self, other: &&'a str) -> (order: Option<Ordering>) {
        Some(compare(self.as_str(), *other))
    }
}

impl<'a> vstd::std_specs::cmp::PartialOrdSpecImpl<&'a str> for SmartStr {
    open spec fn obeys_partial_cmp_spec() -> bool {
        true
    }

    open spec fn partial_cmp_spec(&self, other: &&'a str) -> Option<Ordering> {
        Some(text_order(self@.text, other@))
    }
}

impl PartialEq<String> for SmartStr {
    fn eq(&self, other: &String) -> (result: bool) {
        equal(self.as_str(), other.as_str())
    }
}

impl vstd::std_specs::cmp::PartialEqSpecImpl<String> for SmartStr {
    open spec fn obeys_eq_spec() -> bool {
        true
    }

    open spec fn eq_spec(&self, other: &String) -> bool {
        self@.text == other@
    }
}

impl PartialOrd<String> for SmartStr {
    fn partial_cmp(&self, other: &String) -> (order: Option<Ordering>) {
        Some(compare(self.as_str(), other.as_str()))
    }
}

impl vstd::std_specs::cmp::PartialOrdSpecImpl<String> for SmartStr {
    open spec fn obeys_partial_cmp_spec() -> bool {
        true
    }

    open spec fn partial_cmp_spec(&self, other: &String) -> Option<Ordering> {
        Some(text_order(self@.text, other@))
    }
}

/// Whether `==` between these types goes by its specification.
pub open spec fn eq_specified<A, B: ?Sized>() -> bool where
    A: PartialEqSpec<B>,
 {
    A::obeys_eq_spec()
}

/// Whether `partial_cmp` and `<` between these types go by their specification.
pub open spec fn order_specified<A, B: ?Sized>() -> bool where
    A: PartialOrdSpec<B>,
 {
    A::obeys_partial_cmp_spec()
}

/// A string equals another string, a `str`, a reference to one or a `String` if and only if both
/// have the same characters, and then they compare as equal.
pub proof fn law_equal_by_text(a: SmartStr, b: SmartStr, s: &str, t: String)
    ensures
        eq_specified::<SmartStr, SmartStr>(),
        eq_specified::<SmartStr, str>(),
        eq_specified::<SmartStr, &str>(),
        eq_specified::<SmartStr, String>(),
        PartialEqSpec::eq_spec(&a, &b) <==> a@.text == b@.text,
        PartialEqSpec::eq_spec(&a, s) <==> a@.text == s@,
        PartialEqSpec::eq_spec(&a, &s) <==> a@.text == s@,
        PartialEqSpec::eq_spec(&a, &t) <==> a@.text == t@,
        PartialEqSpec::eq_spec(&a, &b) <==> text_order(a@.text, b@.text) == Ordering::Equal,
        PartialEqSpec::eq_spec(&a, s) <==> text_order(a@.text, s@) == Ordering::Equal,
        PartialEqSpec::eq_spec(&a, &s) <==> text_order(a@.text, s@) == Ordering::Equal,
        PartialEqSpec::eq_spec(&a, &t) <==> text_order(a@.text, t@) == Ordering::Equal,
{
    law_order_antisymmetric(a@.text, b@.text);
    law_order_antisymmetric(a@.text, s@);
    law_order_antisymmetric(a@.text, t@);
}

/// A string is ordered against another string, a `str`, a reference to one or a `String` by their
/// texts alone.
pub proof fn law_ordered_by_text(a: SmartStr, b: SmartStr, s: &str, t: String)
    ensures
        order_specified::<SmartStr, SmartStr>(),
        order_specified::<SmartStr, str>(),
        order_specified::<SmartStr, &str>(),
        order_specified::<SmartStr, String>(),
        PartialOrdSpec::partial_cmp_spec(&a, &b) == Some(text_order(a@.text, b@.text)),
        PartialOrdSpec::partial_cmp_spec(&a, s) == Some(text_order(a@.text, s@)),
        PartialOrdSpec::partial_cmp_spec(&a, &s) == Some(text_order(a@.text, s@)),
        PartialOrdSpec::partial_cmp_spec(&a, &t) == Some(text_order(a@.text, t@)),
{
}

/// A text is less than another if and only if its bytes come first, and greater if and only if
/// they come behind.
pub proof fn law_order_by_bytes(a: Seq<char>, b: Seq<char>)
    ensures
        text_order(a, b) == Ordering::Less <==> precedes(encode_utf8(a), encode_utf8(b)),
        text_order(a, b) == Ordering::Greater <==> precedes(encode_utf8(b), encode_utf8(a)),
{
    let x = encode_utf8(a);
    let y = encode_utf8(b);
    law_precedes_total(x, y);
    if precedes(x, y) {
        law_precedes_asymmetric(x, y);
    }
    if precedes(y, x) {
        law_precedes_asymmetric(y, x);
    }
    if x == y {
        lemma_same_bytes(a, b);
    }
}

/// `cmp` goes by the first byte that differs, and gives equal for the same characters alone.
pub proof fn law_compared(
    a: SmartStr,
    b: SmartStr,
    order: Ordering,
    p: Seq<u8>,
    x: u8,
    y: u8,
    u: Seq<u8>,
    v: Seq<u8>,
)
    requires
        call_ensures(SmartStr::cmp, (&a, &b), order),
    ensures
        order == Ordering::Equal <==> a@.text == b@.text,
        order == Ordering::Less <==> precedes(encode_utf8(a@.text), encode_utf8(b@.text)),
        order == Ordering::Greater <==> precedes(encode_utf8(b@.text), encode_utf8(a@.text)),
        x < y && encode_utf8(a@.text) == p.push(x) + u && encode_utf8(b@.text) == p.push(y) + v
            ==> order == Ordering::Less,
        x < y && encode_utf8(b@.text) == p.push(x) + u && encode_utf8(a@.text) == p.push(y) + v
            ==> order == Ordering::Greater,
{
    law_order_antisymmetric(a@.text, b@.text);
    law_order_by_bytes(a@.text, b@.text);
    if x < y {
        law_first_difference(p, x, y, u, v);
    }
}

} // verus!
