//! Conversions that owe a string, and so take only text that fits.

use std::rc::Rc;
use std::sync::Arc;

use vstd::prelude::*;
use vstd::utf8::encode_utf8;

use crate::model::{fits, Source, StrModel};
use crate::smart_str::SmartStr;
use crate::storage::{IndirectType, StorageType};

verus! {

/// Makes a value out of text in some kind of buffer.
pub trait FromText<T>: Sized {
    /// Whether the text can be held.
    spec fn holds(value: T) -> bool;

    /// Whether `result` is what `value` becomes.
    spec fn becomes(value: T, result: Self) -> bool;

    fn from_text(value: T) -> (result: Self)
        requires
            Self::holds(value),
        ensures
            Self::becomes(value, result),
    ;
}

impl<'a> FromText<&'a str> for SmartStr {
    open spec fn holds(value: &'a str) -> bool {
        fits(value@)
    }

    open spec fn becomes(value: &'a str, result: Self) -> bool {
        result@ == StrModel::copied(value@)
    }

    fn from_text(value: &'a str) -> (result: Self) {
        Self::new(value)
    }
}

impl FromText<Box<str>> for SmartStr {
    open spec fn holds(value: Box<str>) -> bool {
        fits(value@)
    }

    open spec fn becomes(value: Box<str>, result: Self) -> bool {
        result@ == StrModel::adopted(value@, IndirectType::Box, Source::Box(value))
    }

    fn from_text(value: Box<str>) -> (result: Self) {
        Self::from_box(value).unwrap()
    }
}

impl FromText<Arc<str>> for SmartStr {
    open spec fn holds(value: Arc<str>) -> bool {
        fits((*value)@)
    }

    open spec fn becomes(value: Arc<str>, result: Self) -> bool {
        result@ == StrModel::adopted((*value)@, IndirectType::Arc, Source::Arc(value, 0))
    }

    fn from_text(value: Arc<str>) -> (result: Self) {
        Self::from_arc(value).unwrap()
    }
}

impl FromText<Rc<str>> for SmartStr {
    open spec fn holds(value: Rc<str>) -> bool {
        fits((*value)@)
    }

    open spec fn becomes(value: Rc<str>, result: Self) -> bool {
        result@ == StrModel::adopted((*value)@, IndirectType::Rc, Source::Rc(value, 0))
    }

    fn from_text(value: Rc<str>) -> (result: Self) {
        Self::from_rc(value).unwrap()
    }
}

/// A string can be made of borrowed text, a box or a share if and only if its text takes at most
/// 2^32 - 1 bytes.
pub proof fn law_holds(s: &str, boxed: Box<str>, arc: Arc<str>, rc: Rc<str>)
    ensures
        <SmartStr as FromText<&str>>::holds(s) <==> encode_utf8(s@).len() <= 0xffff_ffff,
        <SmartStr as FromText<Box<str>>>::holds(boxed) <==> encode_utf8(boxed@).len()
            <= 0xffff_ffff,
        <SmartStr as FromText<Arc<str>>>::holds(arc) <==> encode_utf8((*arc)@).len()
            <= 0xffff_ffff,
        <SmartStr as FromText<Rc<str>>>::holds(rc) <==> encode_utf8((*rc)@).len() <= 0xffff_ffff,
{
}

/// Borrowed text is copied and kept by its length.
pub proof fn law_from_text_copies(s: &str, made: SmartStr)
    requires
        <SmartStr as FromText<&str>>::becomes(s, made),
    ensures
        made@.text == s@,
        made@.storage == if encode_utf8(s@).len() == 0 {
            StorageType::Indirect(IndirectType::Empty)
        } else if encode_utf8(s@).len() <= 15 {
            StorageType::Inline
        } else {
            StorageType::Indirect(IndirectType::Heap)
        },
        made@.source is Copied,
        !made@.leaks,
{
}

/// A box or a share is taken over as it is, whatever its text.
pub proof fn law_from_text_adopts(
    boxed: Box<str>,
    arc: Arc<str>,
    rc: Rc<str>,
    made: SmartStr,
)
    ensures
        <SmartStr as FromText<Box<str>>>::becomes(boxed, made) <==> made@.text == boxed@
            && made@.storage == StorageType::Indirect(IndirectType::Box) && made@.source
            == Source::Box(boxed) && !made@.leaks,
        <SmartStr as FromText<Arc<str>>>::becomes(arc, made) <==> made@.text == (*arc)@
            && made@.storage == StorageType::Indirect(IndirectType::Arc) && made@.source
            == Source::Arc(arc, 0) && !made@.leaks,
        <SmartStr as FromText<Rc<str>>>::becomes(rc, made) <==> made@.text == (*rc)@
            && made@.storage == StorageType::Indirect(IndirectType::Rc) && made@.source
            == Source::Rc(rc, 0) && !made@.leaks,
{
}

} // verus!
