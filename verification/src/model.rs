//! What a string is, apart from how it is laid out.

use std::rc::Rc;
use std::sync::Arc;

use vstd::prelude::*;
use vstd::utf8::encode_utf8;

use crate::storage::{IndirectType, StorageType, INLINE_LEN, MAX_LEN};

verus! {

/// Whether `text` is short enough for a string to hold.
pub open spec fn fits(text: Seq<char>) -> bool {
    encode_utf8(text).len() <= MAX_LEN
}

/// Where a string built from borrowed text keeps it, by its length in bytes.
pub open spec fn storage_for(len: nat) -> StorageType {
    if len == 0 {
        StorageType::Indirect(IndirectType::Empty)
    } else if len <= INLINE_LEN {
        StorageType::Inline
    } else {
        StorageType::Indirect(IndirectType::Heap)
    }
}

/// The memory that a string was handed, if it was handed any.
///
/// Memory is told from other memory that holds the same text. The number of a share says how
/// often a share was taken from a share to come to it: zero for the share that was handed over.
pub enum Source {
    /// None: the text is a copy of the string's own.
    Copied,
    /// Text that lives as long as the program.
    Static(&'static str),
    /// A box.
    Box(Box<str>),
    /// A share of a buffer.
    Arc(Arc<str>, nat),
    /// A share of a buffer within one thread.
    Rc(Rc<str>, nat),
}

impl Source {
    /// The memory that a clone has: static text is referred to, shared text has one more share
    /// taken, and a box is copied.
    pub open spec fn cloned(self) -> Self {
        match self {
            Source::Copied => Source::Copied,
            Source::Static(s) => Source::Static(s),
            Source::Box(_) => Source::Copied,
            Source::Arc(s, generation) => Source::Arc(s, generation + 1),
            Source::Rc(s, generation) => Source::Rc(s, generation + 1),
        }
    }

    /// Whether memory of this source holds `text` and is of the kind that `storage` says.
    pub open spec fn serves(self, text: Seq<char>, storage: StorageType) -> bool {
        match self {
            Source::Copied => storage == StorageType::Inline || storage == StorageType::Indirect(
                IndirectType::Empty,
            ) || storage == StorageType::Indirect(IndirectType::Heap),
            Source::Static(s) => s@ == text && storage == StorageType::Indirect(
                IndirectType::Static,
            ),
            Source::Box(s) => s@ == text && storage == StorageType::Indirect(IndirectType::Box),
            Source::Arc(s, _) => (*s)@ == text && storage == StorageType::Indirect(
                IndirectType::Arc,
            ),
            Source::Rc(s, _) => (*s)@ == text && storage == StorageType::Indirect(
                IndirectType::Rc,
            ),
        }
    }
}

/// The state of a string: its text, where that is kept, the memory that it was handed, and
/// whether dropping the string leaves the memory behind.
#[verifier::ext_equal]
pub struct StrModel {
    pub text: Seq<char>,
    pub storage: StorageType,
    pub source: Source,
    pub leaks: bool,
}

impl StrModel {
    /// The text in UTF-8.
    pub open spec fn bytes(self) -> Seq<u8> {
        encode_utf8(self.text)
    }

    /// What holds of every string.
    pub open spec fn valid(self) -> bool {
        &&& fits(self.text)
        &&& self.storage == StorageType::Inline ==> 1 <= self.bytes().len() <= INLINE_LEN
            && !self.leaks
        &&& self.storage == StorageType::Indirect(IndirectType::Empty) ==> self.text.len() == 0
        &&& self.storage == StorageType::Indirect(IndirectType::Heap) ==> self.bytes().len()
            > INLINE_LEN
        &&& self.source.serves(self.text, self.storage)
    }

    /// A string just made, with its text kept at `storage`.
    pub open spec fn fresh(text: Seq<char>, storage: StorageType, source: Source) -> Self {
        StrModel { text, storage, source, leaks: false }
    }

    /// A string that copies borrowed text.
    pub open spec fn copied(text: Seq<char>) -> Self {
        StrModel::fresh(text, storage_for(encode_utf8(text).len()), Source::Copied)
    }

    /// A string that took over `source`, which is memory of kind `ty` and holds `text`.
    pub open spec fn adopted(text: Seq<char>, ty: IndirectType, source: Source) -> Self {
        StrModel::fresh(text, StorageType::Indirect(ty), source)
    }

    /// The string without text.
    pub open spec fn empty() -> Self {
        StrModel::adopted(Seq::empty(), IndirectType::Empty, Source::Copied)
    }

    /// The same string, to be left behind when it is dropped. An inline string has nothing to
    /// leave behind.
    pub open spec fn leaked(self) -> Self {
        StrModel { leaks: self.storage != StorageType::Inline, ..self }
    }

    /// The same string, to be given back when it is dropped.
    pub open spec fn unleaked(self) -> Self {
        StrModel { leaks: false, ..self }
    }

    /// A clone. Text that one string owns alone is copied, and so kept by its length; other text
    /// stays where it is; only a clone of static text is still marked to be left behind.
    pub open spec fn cloned(self) -> Self {
        StrModel {
            text: self.text,
            storage: if self.storage == StorageType::Indirect(IndirectType::Box) {
                storage_for(self.bytes().len())
            } else {
                self.storage
            },
            source: self.source.cloned(),
            leaks: self.leaks && self.storage == StorageType::Indirect(IndirectType::Static),
        }
    }

    /// The memory that dropping the string gives back, if any.
    pub open spec fn released(self) -> Option<IndirectType> {
        match self.storage {
            StorageType::Inline => None,
            StorageType::Indirect(IndirectType::Empty) => None,
            StorageType::Indirect(IndirectType::Static) => None,
            StorageType::Indirect(ty) => if self.leaks {
                None
            } else {
                Some(ty)
            },
        }
    }

    /// The text as one that lives as long as the program, where the string knows that it does.
    pub open spec fn static_text(self) -> Option<Seq<char>> {
        match self.storage {
            StorageType::Indirect(IndirectType::Empty) => Some(Seq::empty()),
            StorageType::Indirect(IndirectType::Static) => Some(self.text),
            _ => None,
        }
    }
}

} // verus!
