//! Where a string keeps its text, and the length tag that tells the two forms apart.

use vstd::prelude::*;

verus! {

/// The longest text, in bytes, that is kept inline.
pub const INLINE_LEN: usize = 15;

/// The longest text, in bytes, that a string can hold.
pub const MAX_LEN: usize = 0xffff_ffff;

/// The tag that tells the two forms of a string apart.
///
/// In an inline string, which holds 1 to 15 bytes, it is the length of the text. In an indirect
/// string it is always [`StrLen::Addr`], which says that the text is kept elsewhere.
#[derive(Debug, Clone, Copy, PartialEq, Eq, Structural)]
pub enum StrLen {
    Addr,
    Lx01,
    Lx02,
    Lx03,
    Lx04,
    Lx05,
    Lx06,
    Lx07,
    Lx08,
    Lx09,
    Lx0A,
    Lx0B,
    Lx0C,
    Lx0D,
    Lx0E,
    Lx0F,
}

impl StrLen {
    /// The value of [`StrLen::Addr`].
    pub const ADDR: usize = 0;

    /// The number that the tag stands for.
    pub open spec fn value(self) -> nat {
        match self {
            StrLen::Addr => 0,
            StrLen::Lx01 => 1,
            StrLen::Lx02 => 2,
            StrLen::Lx03 => 3,
            StrLen::Lx04 => 4,
            StrLen::Lx05 => 5,
            StrLen::Lx06 => 6,
            StrLen::Lx07 => 7,
            StrLen::Lx08 => 8,
            StrLen::Lx09 => 9,
            StrLen::Lx0A => 10,
            StrLen::Lx0B => 11,
            StrLen::Lx0C => 12,
            StrLen::Lx0D => 13,
            StrLen::Lx0E => 14,
            StrLen::Lx0F => 15,
        }
    }

    /// The number that the tag stands for.
    #[must_use]
    pub fn as_usize(self) -> (value: usize)
        ensures
            value == self.value(),
    {
        self as usize
    }

    /// The tag that stands for `value`.
    #[must_use]
    pub fn from_usize(value: usize) -> (len: Self)
        requires
            value <= INLINE_LEN,
        ensures
            len.value() == value,
    {
        match value {
            0 => StrLen::Addr,
            1 => StrLen::Lx01,
            2 => StrLen::Lx02,
            3 => StrLen::Lx03,
            4 => StrLen::Lx04,
            5 => StrLen::Lx05,
            6 => StrLen::Lx06,
            7 => StrLen::Lx07,
            8 => StrLen::Lx08,
            9 => StrLen::Lx09,
            10 => StrLen::Lx0A,
            11 => StrLen::Lx0B,
            12 => StrLen::Lx0C,
            13 => StrLen::Lx0D,
            14 => StrLen::Lx0E,
            _ => StrLen::Lx0F,
        }
    }
}

/// A tag stands for one number from 0 to 15, no two for the same, and each number has a tag.
pub proof fn law_length_tags(a: StrLen, b: StrLen, n: nat)
    ensures
        a.value() <= 15,
        a.value() == a as int,
        a.value() == b.value() ==> a == b,
        a.value() == 0 <==> a == StrLen::Addr,
        n <= 15 ==> exists|len: StrLen| len.value() == n,
{
    assert(StrLen::Addr.value() == 0 && StrLen::Lx01.value() == 1 && StrLen::Lx02.value() == 2);
    assert(StrLen::Lx03.value() == 3 && StrLen::Lx04.value() == 4 && StrLen::Lx05.value() == 5);
    assert(StrLen::Lx06.value() == 6 && StrLen::Lx07.value() == 7 && StrLen::Lx08.value() == 8);
    assert(StrLen::Lx09.value() == 9 && StrLen::Lx0A.value() == 10 && StrLen::Lx0B.value() == 11);
    assert(StrLen::Lx0C.value() == 12 && StrLen::Lx0D.value() == 13 && StrLen::Lx0E.value() == 14);
    assert(StrLen::Lx0F.value() == 15);
}

/// The tag of an indirect string, which is always [`StrLen::Addr`].
#[derive(Debug, Clone, Copy)]
pub struct Footer(StrLen);

impl Footer {
    #[verifier::type_invariant]
    spec fn wf(self) -> bool {
        self.0 == StrLen::Addr
    }

    /// The tag.
    pub closed spec fn tag(self) -> StrLen {
        self.0
    }

    /// The tag of an indirect string.
    #[must_use]
    pub fn indirect() -> (footer: Self)
        ensures
            footer.tag() == StrLen::Addr,
    {
        Footer(StrLen::Addr)
    }

    /// The tag.
    #[must_use]
    pub fn len(self) -> (len: StrLen)
        ensures
            len == self.tag(),
            len == StrLen::Addr,
    {
        proof {
            use_type_invariant(self);
        }
        self.0
    }
}

/// The kinds of memory outside the string that can hold its text.
#[derive(Debug, Clone, Copy, PartialEq, Eq, PartialOrd, Ord, Hash, Structural)]
pub enum IndirectType {
    /// No memory: the text is empty.
    Empty,
    /// Text that lives as long as the program.
    Static,
    /// A buffer that the string allocated for itself.
    Heap,
    /// A box that was handed to the string.
    Box,
    /// A shared buffer, counted atomically.
    Arc,
    /// A shared buffer, counted within one thread.
    Rc,
}

impl IndirectType {
    #[must_use]
    pub(crate) fn into_storage(self) -> (storage: StorageType)
        ensures
            storage == StorageType::Indirect(self),
    {
        StorageType::Indirect(self)
    }

    #[must_use]
    pub fn is_empty(self) -> (result: bool)
        ensures
            result == (self == IndirectType::Empty),
    {
        matches!(self, IndirectType::Empty)
    }
}

/// Where a string keeps its text.
#[derive(Debug, Clone, Copy, PartialEq, Eq, PartialOrd, Ord, Hash, Structural)]
pub enum StorageType {
    /// In memory outside the string, or nowhere for the empty text.
    Indirect(IndirectType),
    /// In the string itself.
    Inline,
}

impl StorageType {
    #[must_use]
    pub fn is_empty(self) -> (result: bool)
        ensures
            result == (self == StorageType::Indirect(IndirectType::Empty)),
    {
        matches!(self, StorageType::Indirect(IndirectType::Empty))
    }

    #[must_use]
    pub fn is_static(self) -> (result: bool)
        ensures
            result == (self == StorageType::Indirect(IndirectType::Static)),
    {
        matches!(self, StorageType::Indirect(IndirectType::Static))
    }

    #[must_use]
    pub fn is_heap(self) -> (result: bool)
        ensures
            result == (self == StorageType::Indirect(IndirectType::Heap)),
    {
        matches!(self, StorageType::Indirect(IndirectType::Heap))
    }

    #[must_use]
    pub fn is_box(self) -> (result: bool)
        ensures
            result == (self == StorageType::Indirect(IndirectType::Box)),
    {
        matches!(self, StorageType::Indirect(IndirectType::Box))
    }

    #[must_use]
    pub fn is_arc(self) -> (result: bool)
        ensures
            result == (self == StorageType::Indirect(IndirectType::Arc)),
    {
        matches!(self, StorageType::Indirect(IndirectType::Arc))
    }

    #[must_use]
    pub fn is_rc(self) -> (result: bool)
        ensures
            result == (self == StorageType::Indirect(IndirectType::Rc)),
    {
        matches!(self, StorageType::Indirect(IndirectType::Rc))
    }

    #[must_use]
    pub fn is_inline(self) -> (result: bool)
        ensures
            result == (self == StorageType::Inline),
    {
        matches!(self, StorageType::Inline)
    }
}

/// One for a claim that holds, zero for one that does not.
pub open spec fn count(claim: bool) -> nat {
    if claim {
        1
    } else {
        0
    }
}

/// Of the seven questions that can be asked of a storage, exactly one is answered with yes.
pub proof fn law_one_storage(storage: StorageType)
    ensures
        count(storage == StorageType::Inline) + count(
            storage == StorageType::Indirect(IndirectType::Empty),
        ) + count(storage == StorageType::Indirect(IndirectType::Static)) + count(
            storage == StorageType::Indirect(IndirectType::Heap),
        ) + count(storage == StorageType::Indirect(IndirectType::Box)) + count(
            storage == StorageType::Indirect(IndirectType::Arc),
        ) + count(storage == StorageType::Indirect(IndirectType::Rc)) == 1,
{
    match storage {
        StorageType::Inline => {},
        StorageType::Indirect(ty) => match ty {
            IndirectType::Empty => {},
            IndirectType::Static => {},
            IndirectType::Heap => {},
            IndirectType::Box => {},
            IndirectType::Arc => {},
            IndirectType::Rc => {},
        },
    }
}

} // verus!
