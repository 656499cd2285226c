//! The string itself.

use std::rc::Rc;
use std::sync::Arc;

use vstd::prelude::*;
use vstd::utf8::{encode_utf8, encode_utf8_decode_utf8, encode_utf8_valid_utf8};

use crate::indirect::{Indirect, Ptr};
use crate::inline::Inline;
use crate::model::{fits, Source, StrModel};
use crate::smart_str::share::Share;
use crate::storage::{IndirectType, StorageType, StrLen, INLINE_LEN, MAX_LEN};
use crate::text::byte_len;

pub(crate) mod share;

verus! {

/// The two forms of a string.
enum Repr {
    Inline(Inline),
    Indirect(Indirect),
}

impl Repr {
    spec fn wf(self) -> bool {
        match self {
            Repr::Inline(inline) => inline.wf(),
            Repr::Indirect(indirect) => indirect.wf(),
        }
    }

    spec fn model(self) -> StrModel {
        match self {
            Repr::Inline(inline) => StrModel::fresh(
                inline.text(),
                StorageType::Inline,
                Source::Copied,
            ),
            Repr::Indirect(indirect) => StrModel {
                text: indirect.text(),
                storage: StorageType::Indirect(indirect.kind()),
                source: indirect.buffer().source(),
                leaks: indirect.leaks(),
            },
        }
    }
}

/// An immutable string of at most 2^32 - 1 bytes.
///
/// Copied text is kept in the string itself up to fifteen bytes, and in a buffer of the string's
/// own above that. Text that was handed over stays where it is.
pub struct SmartStr {
    repr: Repr,
}

impl View for SmartStr {
    type V = StrModel;

    closed spec fn view(&self) -> StrModel {
        self.repr.model()
    }
}

impl SmartStr {
    /// The longest text, in bytes, that is kept inline.
    pub const INLINE_LEN: usize = INLINE_LEN;

    #[verifier::type_invariant]
    spec fn wf(self) -> bool {
        self.repr.wf()
    }

    /// Every string is in a valid state.
    proof fn lemma_valid(self)
        requires
            self.wf(),
        ensures
            self@.valid(),
    {
        match self.repr {
            Repr::Inline(inline) => inline.lemma_text(),
            Repr::Indirect(indirect) => indirect.lemma_text(),
        }
    }

    /// The memory that the string was handed is the memory that it has, and the destructor of that
    /// memory runs with the string's if and only if the string is not marked.
    proof fn law_memory(self)
        requires
            self.wf(),
        ensures
            self@.storage == StorageType::Inline <==> self.repr is Inline,
            self.repr matches Repr::Indirect(indirect) ==> {
                &&& self@.leaks <==> !indirect.drops_buffer()
                &&& self@.storage == StorageType::Indirect(indirect.kind())
                &&& indirect.buffer() matches Ptr::Static(p) ==> self@.source == Source::Static(p)
                &&& indirect.buffer() matches Ptr::Box(p) ==> self@.source == Source::Box(p)
                &&& indirect.buffer() matches Ptr::Arc(p) ==> self@.source == Source::Arc(
                    p.buffer(),
                    p.generation(),
                )
                &&& indirect.buffer() matches Ptr::Rc(p) ==> self@.source == Source::Rc(
                    p.buffer(),
                    p.generation(),
                )
                &&& self@.source is Static <==> indirect.buffer() is Static
                &&& self@.source is Box <==> indirect.buffer() is Box
                &&& self@.source is Arc <==> indirect.buffer() is Arc
                &&& self@.source is Rc <==> indirect.buffer() is Rc
            },
    {
        if let Repr::Indirect(indirect) = self.repr {
            indirect.lemma_drop();
        }
    }

    /// The empty string.
    #[must_use]
    pub fn new_empty() -> (s: Self)
        ensures
            s@ == StrModel::empty(),
    {
        SmartStr { repr: Repr::Indirect(Indirect::empty()) }
    }

    /// Copies `s` into the string itself.
    fn new_inline(s: &str) -> (result: Self)
        requires
            1 <= encode_utf8(s@).len() <= INLINE_LEN,
        ensures
            result@ == StrModel::fresh(s@, StorageType::Inline, Source::Copied),
    {
        let source = s.as_bytes();
        let len: usize = source.len();
        let mut bytes: [u8; 15] = [0; 15];
        let mut i: usize = 0;
        while i < len
            invariant
                i <= len <= INLINE_LEN,
                len == source@.len(),
                bytes@.len() == INLINE_LEN,
                bytes@.take(i as int) == source@.take(i as int),
                forall|j: int| i <= j < INLINE_LEN ==> bytes@[j] == 0,
            decreases len - i,
        {
            bytes[i] = source[i];
            i += 1;
            assert(bytes@.take(i as int) =~= source@.take(i as int));
        }
        proof {
            assert(bytes@.take(len as int) =~= encode_utf8(s@));
            encode_utf8_valid_utf8(s@);
            encode_utf8_decode_utf8(s@);
        }
        SmartStr { repr: Repr::Inline(Inline::new(bytes, StrLen::from_usize(len))) }
    }

    /// Refers to text that lives as long as the program, however short it is.
    #[must_use]
    pub fn new_static(s: &'static str) -> (result: Self)
        requires
            fits(s@),
        ensures
            result@ == StrModel::adopted(s@, IndirectType::Static, Source::Static(s)),
    {
        SmartStr { repr: Repr::Indirect(Indirect::new_static(s)) }
    }

    /// Copies `s` into a buffer of the string's own.
    fn new_heap(s: &str) -> (result: Self)
        requires
            fits(s@),
            encode_utf8(s@).len() > INLINE_LEN,
        ensures
            result@ == StrModel::adopted(s@, IndirectType::Heap, Source::Copied),
    {
        let len: usize = byte_len(s);
        let ptr = Ptr::Heap(Share::new(s.to_owned()));
        let indirect = Indirect::unflagged(ptr, len, IndirectType::Heap);
        SmartStr { repr: Repr::Indirect(indirect) }
    }

    /// Copies `s`: nowhere if it is empty, into the string itself if it takes at most fifteen
    /// bytes, and into a buffer of the string's own otherwise.
    #[must_use]
    pub fn new(s: &str) -> (result: Self)
        requires
            fits(s@),
        ensures
            result@ == StrModel::copied(s@),
    {
        let len: usize = byte_len(s);
        if len == 0 {
            assert(s@ =~= Seq::<char>::empty());
            Self::new_empty()
        } else if len <= INLINE_LEN {
            Self::new_inline(s)
        } else {
            Self::new_heap(s)
        }
    }

    /// Takes over a box, or hands it back if its text is too long.
    pub fn from_box(s: Box<str>) -> (result: Result<Self, Box<str>>)
        ensures
            match result {
                Ok(string) => fits(s@) && string@ == StrModel::adopted(
                    s@,
                    IndirectType::Box,
                    Source::Box(s),
                ),
                Err(back) => !fits(s@) && back == s,
            },
    {
        let len: usize = byte_len(&*s);
        if len > MAX_LEN {
            return Err(s);
        }
        let indirect = Indirect::unflagged(Ptr::Box(s), len, IndirectType::Box);
        Ok(SmartStr { repr: Repr::Indirect(indirect) })
    }

    /// Takes over one share of a buffer, or hands it back if its text is too long.
    pub fn from_arc(s: Arc<str>) -> (result: Result<Self, Arc<str>>)
        ensures
            match result {
                Ok(string) => fits((*s)@) && string@ == StrModel::adopted(
                    (*s)@,
                    IndirectType::Arc,
                    Source::Arc(s, 0),
                ),
                Err(back) => !fits((*s)@) && back == s,
            },
    {
        let len: usize = byte_len(&*s);
        if len > MAX_LEN {
            return Err(s);
        }
        let indirect = Indirect::unflagged(Ptr::Arc(Share::new(s)), len, IndirectType::Arc);
        Ok(SmartStr { repr: Repr::Indirect(indirect) })
    }

    /// Takes over one share of a buffer, or hands it back if its text is too long.
    pub fn from_rc(s: Rc<str>) -> (result: Result<Self, Rc<str>>)
        ensures
            match result {
                Ok(string) => fits((*s)@) && string@ == StrModel::adopted(
                    (*s)@,
                    IndirectType::Rc,
                    Source::Rc(s, 0),
                ),
                Err(back) => !fits((*s)@) && back == s,
            },
    {
        let len: usize = byte_len(&*s);
        if len > MAX_LEN {
            return Err(s);
        }
        let indirect = Indirect::unflagged(Ptr::Rc(Share::new(s)), len, IndirectType::Rc);
        Ok(SmartStr { repr: Repr::Indirect(indirect) })
    }

    /// The length of the text in bytes.
    #[must_use]
    pub fn len(&self) -> (len: usize)
        ensures
            len == encode_utf8(self@.text).len(),
            len == self@.bytes().len(),
            self@.valid(),
    {
        proof {
            use_type_invariant(self);
            self.lemma_valid();
        }
        match &self.repr {
            Repr::Inline(inline) => inline.len(),
            Repr::Indirect(indirect) => indirect.len(),
        }
    }

    /// The same text, to be left behind or not when the string is dropped. An inline string has
    /// nothing to leave behind.
    fn marked(self, leaks: bool) -> (result: Self)
        ensures
            result@ == if leaks {
                self@.leaked()
            } else {
                self@.unleaked()
            },
    {
        proof {
            use_type_invariant(&self);
        }
        match self.repr {
            Repr::Inline(inline) => SmartStr { repr: Repr::Inline(inline) },
            Repr::Indirect(indirect) => SmartStr { repr: Repr::Indirect(indirect.marked(leaks)) },
        }
    }

    /// Marks the string to be left behind when it is dropped.
    pub fn leak(self) -> (result: Self)
        ensures
            result@ == self@.leaked(),
    {
        self.marked(true)
    }

    /// Marks the string to be given back when it is dropped.
    pub fn unleak(self) -> (result: Self)
        ensures
            result@ == self@.unleaked(),
    {
        self.marked(false)
    }

    /// The kind of memory that dropping the string gives back, if any.
    #[must_use]
    pub fn released(&self) -> (result: Option<IndirectType>)
        ensures
            result == self@.released(),
    {
        proof {
            use_type_invariant(self);
        }
        match &self.repr {
            Repr::Inline(_) => None,
            Repr::Indirect(indirect) => indirect.released(),
        }
    }

    /// The text, if it is known to live as long as the program.
    #[must_use]
    pub fn as_static_str(&self) -> (result: Option<&'static str>)
        ensures
            match result {
                Some(s) => self@.static_text() == Some(s@) && s@ == self@.text && (
                self@.source matches Source::Static(p) ==> s == p),
                None => self@.static_text() is None,
            },
    {
        proof {
            use_type_invariant(self);
        }
        match &self.repr {
            Repr::Inline(_) => None,
            Repr::Indirect(indirect) => match indirect.ptr() {
                Ptr::Null => {
                    proof {
                        reveal_strlit("");
                    }
                    Some("")
                },
                Ptr::Static(s) => Some(*s),
                _ => None,
            },
        }
    }

    /// The text.
    #[must_use]
    pub fn as_str(&self) -> (s: &str)
        ensures
            s@ == self@.text,
            match self@.source {
                Source::Copied => true,
                Source::Static(p) => s == p,
                Source::Box(p) => s == &*p,
                Source::Arc(p, _) => s == &*p,
                Source::Rc(p, _) => s == &*p,
            },
            self@.valid(),
    {
        proof {
            use_type_invariant(self);
            self.lemma_valid();
        }
        match &self.repr {
            Repr::Inline(inline) => inline.as_str(),
            Repr::Indirect(indirect) => indirect.as_str(),
        }
    }

    /// The length tag, which is [`StrLen::Addr`] for an indirect string alone.
    fn footer(&self) -> (tag: StrLen)
        ensures
            tag == StrLen::Addr <==> self@.storage != StorageType::Inline,
            tag != StrLen::Addr ==> tag.value() == encode_utf8(self@.text).len(),
    {
        proof {
            use_type_invariant(self);
            if let Repr::Inline(inline) = self.repr {
                inline.lemma_text();
            }
        }
        match &self.repr {
            Repr::Inline(inline) => inline.footer(),
            Repr::Indirect(indirect) => indirect.footer(),
        }
    }

    /// Where the text is kept.
    #[must_use]
    pub fn storage_type(&self) -> (storage: StorageType)
        ensures
            storage == self@.storage,
            self@.valid(),
    {
        proof {
            use_type_invariant(self);
            self.lemma_valid();
        }
        match &self.repr {
            Repr::Inline(_) => StorageType::Inline,
            Repr::Indirect(indirect) => indirect.ty().into_storage(),
        }
    }

    /// Whether the string was made without text. Static or boxed text can be empty too; that
    /// is not asked here.
    #[must_use]
    pub fn is_empty(&self) -> (result: bool)
        ensures
            result == (self@.storage == StorageType::Indirect(IndirectType::Empty)),
            result ==> self@.text.len() == 0,
    {
        self.storage_type().is_empty()
    }

    #[must_use]
    pub fn is_inline(&self) -> (result: bool)
        ensures
            result == (self@.storage == StorageType::Inline),
    {
        self.footer().as_usize() != StrLen::ADDR
    }

    #[must_use]
    pub fn is_static(&self) -> (result: bool)
        ensures
            result == (self@.storage == StorageType::Indirect(IndirectType::Static)),
    {
        self.storage_type().is_static()
    }

    #[must_use]
    pub fn is_heap(&self) -> (result: bool)
        ensures
            result == (self@.storage == StorageType::Indirect(IndirectType::Heap)),
    {
        self.storage_type().is_heap()
    }

    #[must_use]
    pub fn is_box(&self) -> (result: bool)
        ensures
            result == (self@.storage == StorageType::Indirect(IndirectType::Box)),
    {
        self.storage_type().is_box()
    }

    #[must_use]
    pub fn is_arc(&self) -> (result: bool)
        ensures
            result == (self@.storage == StorageType::Indirect(IndirectType::Arc)),
    {
        self.storage_type().is_arc()
    }

    #[must_use]
    pub fn is_rc(&self) -> (result: bool)
        ensures
            result == (self@.storage == StorageType::Indirect(IndirectType::Rc)),
    {
        self.storage_type().is_rc()
    }
}

impl Clone for SmartStr {
    /// Copies text that this string owns alone, and shares the rest.
    fn clone(&self) -> (result: Self)
        ensures
            result@ == self@.cloned(),
    {
        proof {
            use_type_invariant(self);
            self.lemma_valid();
        }
        match &self.repr {
            Repr::Inline(inline) => SmartStr { repr: Repr::Inline(*inline) },
            Repr::Indirect(indirect) => match indirect.ptr() {
                Ptr::Null => Self::new_empty(),
                Ptr::Static(s) => {
                    let fresh = Self::new_static(s);
                    if indirect.flags().leak() { fresh.leak() } else { fresh }
                },
                Ptr::Heap(_) => Self::new_heap(self.as_str()),
                Ptr::Box(_) => Self::new(self.as_str()),
                Ptr::Arc(s) => {
                    let ptr = Ptr::Arc(s.another());
                    let shared = Indirect::unflagged(ptr, indirect.len(), IndirectType::Arc);
                    SmartStr { repr: Repr::Indirect(shared) }
                },
                Ptr::Rc(s) => {
                    let ptr = Ptr::Rc(s.another());
                    let shared = Indirect::unflagged(ptr, indirect.len(), IndirectType::Rc);
                    SmartStr { repr: Repr::Indirect(shared) }
                },
            },
        }
    }
}

} // verus!
