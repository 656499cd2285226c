//! Text that is kept in memory outside the string.

use std::mem::ManuallyDrop;
use std::rc::Rc;
use std::sync::Arc;

use vstd::prelude::*;
use vstd::utf8::{encode_utf8, encode_utf8_decode_utf8};

use crate::flags::IndirectFlags;
use crate::model::{fits, Source};
use crate::smart_str::share::Share;
use crate::storage::{Footer, IndirectType, StrLen, INLINE_LEN};
use crate::text::byte_len;

verus! {

/// The memory that holds the text.
pub(crate) enum Ptr {
    /// No memory.
    Null,
    /// Borrowed for as long as the program runs.
    Static(&'static str),
    /// Allocated by the string.
    Heap(Share<String>),
    /// Owned alone.
    Box(Box<str>),
    /// One share of a buffer.
    Arc(Share<Arc<str>>),
    /// One share of a buffer within one thread.
    Rc(Share<Rc<str>>),
}

impl Ptr {
    /// The text in the memory.
    pub(crate) open spec fn text(self) -> Seq<char> {
        match self {
            Ptr::Null => Seq::empty(),
            Ptr::Static(s) => s@,
            Ptr::Heap(s) => s.buffer()@,
            Ptr::Box(s) => s@,
            Ptr::Arc(s) => (*s.buffer())@,
            Ptr::Rc(s) => (*s.buffer())@,
        }
    }

    /// The memory as something that the string was handed.
    pub(crate) open spec fn source(self) -> Source {
        match self {
            Ptr::Null => Source::Copied,
            Ptr::Static(s) => Source::Static(s),
            Ptr::Heap(_) => Source::Copied,
            Ptr::Box(s) => Source::Box(s),
            Ptr::Arc(s) => Source::Arc(s.buffer(), s.generation()),
            Ptr::Rc(s) => Source::Rc(s.buffer(), s.generation()),
        }
    }

    /// The kind of memory.
    pub(crate) open spec fn ty(self) -> IndirectType {
        match self {
            Ptr::Null => IndirectType::Empty,
            Ptr::Static(_) => IndirectType::Static,
            Ptr::Heap(_) => IndirectType::Heap,
            Ptr::Box(_) => IndirectType::Box,
            Ptr::Arc(_) => IndirectType::Arc,
            Ptr::Rc(_) => IndirectType::Rc,
        }
    }
}

/// The memory together with what becomes of it when the string is dropped: the compiler drops
/// what is kept, and leaves alone what is wrapped in `ManuallyDrop`.
pub(crate) enum Claim {
    /// It is dropped with the string.
    Kept(Ptr),
    /// It is left behind.
    Leaked(ManuallyDrop<Ptr>),
}

impl Claim {
    /// The memory.
    pub(crate) open spec fn ptr(self) -> Ptr {
        match self {
            Claim::Kept(ptr) => ptr,
            Claim::Leaked(ptr) => ptr@,
        }
    }

    /// The memory.
    fn as_ptr(&self) -> (ptr: &Ptr)
        ensures
            *ptr == self.ptr(),
    {
        match self {
            Claim::Kept(ptr) => ptr,
            Claim::Leaked(ptr) => &**ptr,
        }
    }

    /// Lays down whether the memory is left behind.
    fn settle(self, leaks: bool) -> (claim: Self)
        ensures
            claim.ptr() == self.ptr(),
            claim is Leaked == leaks,
    {
        match (self, leaks) {
            (Claim::Kept(ptr), true) => Claim::Leaked(ManuallyDrop::new(ptr)),
            (Claim::Leaked(ptr), false) => Claim::Kept(ManuallyDrop::into_inner(ptr)),
            (claim, _) => claim,
        }
    }
}

/// Text in memory outside the string, with its length, its flags and the kind of the memory.
pub(crate) struct Indirect {
    claim: Claim,
    len: u32,
    flags: IndirectFlags,
    ty: IndirectType,
    /// Where the empty text is.
    nil: [u8; 0],
    footer: Footer,
}

impl Indirect {
    /// The memory.
    pub(crate) closed spec fn buffer(self) -> Ptr {
        self.claim.ptr()
    }

    /// The flags.
    pub(crate) closed spec fn flag_set(self) -> IndirectFlags {
        self.flags
    }

    /// The text.
    pub(crate) open spec fn text(self) -> Seq<char> {
        self.buffer().text()
    }

    /// The kind of memory.
    pub(crate) open spec fn kind(self) -> IndirectType {
        self.buffer().ty()
    }

    /// Whether the memory is left behind when the string is dropped.
    pub(crate) open spec fn leaks(self) -> bool {
        self.flag_set().contains(0)
    }

    /// Whether the destructor of the memory runs when the string is dropped.
    pub(crate) closed spec fn drops_buffer(self) -> bool {
        self.claim is Kept
    }

    /// The length and the kind are those of the memory, the string allocates only what cannot be
    /// kept inline, the memory is left behind if the leak flag says so, and no other flag is on.
    pub(crate) closed spec fn wf(self) -> bool {
        &&& encode_utf8(self.buffer().text()).len() == self.len
        &&& self.ty == self.buffer().ty()
        &&& self.ty == IndirectType::Heap ==> self.len > INLINE_LEN
        &&& self.claim is Leaked == self.flags.contains(0)
        &&& self.flags.bits() & !1u16 == 0
        &&& self.footer.tag() == StrLen::Addr
    }

    /// Text of length `len` in memory of kind `ty`.
    #[must_use]
    pub(crate) fn with_footer(
        ptr: Ptr,
        len: u32,
        flags: IndirectFlags,
        ty: IndirectType,
    ) -> (indirect: Self)
        requires
            encode_utf8(ptr.text()).len() == len,
            ty == ptr.ty(),
            ty == IndirectType::Heap ==> len > INLINE_LEN,
            flags.bits() & !1u16 == 0,
        ensures
            indirect.wf(),
            indirect.buffer() == ptr,
            indirect.flag_set() == flags,
    {
        let claim = Claim::Kept(ptr).settle(flags.leak());
        Indirect { claim, len, flags, ty, nil: [], footer: Footer::indirect() }
    }

    /// The memory `ptr` of kind `ty`, holding `len` bytes, with no flag on.
    #[must_use]
    pub(crate) fn unflagged(ptr: Ptr, len: usize, ty: IndirectType) -> (indirect: Self)
        requires
            encode_utf8(ptr.text()).len() == len,
            fits(ptr.text()),
            ty == ptr.ty(),
            ty == IndirectType::Heap ==> len > INLINE_LEN,
        ensures
            indirect.wf(),
            indirect.buffer() == ptr,
            !indirect.leaks(),
    {
        assert(0u16 & !1u16 == 0 && !((0u16 >> 0u16) & 1 == 1)) by (bit_vector);
        Indirect::with_footer(ptr, len as u32, IndirectFlags::none(), ty)
    }

    /// The empty text.
    #[must_use]
    pub(crate) fn empty() -> (indirect: Self)
        ensures
            indirect.wf(),
            indirect.buffer() == Ptr::Null,
            !indirect.leaks(),
    {
        Indirect::unflagged(Ptr::Null, 0, IndirectType::Empty)
    }

    /// Text that lives as long as the program.
    #[must_use]
    pub(crate) fn new_static(s: &'static str) -> (indirect: Self)
        requires
            fits(s@),
        ensures
            indirect.wf(),
            indirect.buffer() == Ptr::Static(s),
            !indirect.leaks(),
    {
        Indirect::unflagged(Ptr::Static(s), byte_len(s), IndirectType::Static)
    }

    /// The kind of memory.
    #[must_use]
    pub(crate) fn ty(&self) -> (ty: IndirectType)
        requires
            self.wf(),
        ensures
            ty == self.kind(),
    {
        self.ty
    }

    /// The length of the text in bytes.
    #[must_use]
    pub(crate) fn len(&self) -> (len: usize)
        requires
            self.wf(),
        ensures
            len == encode_utf8(self.text()).len(),
            fits(self.text()),
    {
        self.len as usize
    }

    /// The length tag, which says that the text is elsewhere.
    #[must_use]
    pub(crate) fn footer(&self) -> (len: StrLen)
        ensures
            len == StrLen::Addr,
    {
        self.footer.len()
    }

    /// The memory.
    #[must_use]
    pub(crate) fn ptr(&self) -> (ptr: &Ptr)
        ensures
            *ptr == self.buffer(),
    {
        self.claim.as_ptr()
    }

    /// The flags.
    #[must_use]
    pub(crate) fn flags(&self) -> (flags: IndirectFlags)
        ensures
            flags == self.flag_set(),
    {
        self.flags
    }

    /// The same text with the leak flag on or off.
    #[must_use]
    pub(crate) fn marked(self, leaks: bool) -> (indirect: Self)
        requires
            self.wf(),
        ensures
            indirect.wf(),
            indirect.buffer() == self.buffer(),
            indirect.leaks() == leaks,
    {
        let ghost bits = self.flags.bits();
        assert((bits | 1) & !1u16 == 0 && (bits & !1u16) & !1u16 == 0) by (bit_vector)
            requires
                bits & !1u16 == 0,
        ;
        let mut flags = self.flags;
        flags.set_leak(leaks);
        let claim = self.claim.settle(leaks);
        Indirect { claim, len: self.len, flags, ty: self.ty, nil: [], footer: self.footer }
    }

    /// The kind of memory that dropping the string gives back, if any.
    #[must_use]
    pub(crate) fn released(&self) -> (result: Option<IndirectType>)
        requires
            self.wf(),
        ensures
            result == if self.drops_buffer() && self.kind() != IndirectType::Empty && self.kind()
                != IndirectType::Static {
                Some(self.kind())
            } else {
                None
            },
            self.drops_buffer() == !self.leaks(),
    {
        if self.flags.leak() {
            return None;
        }
        match self.ty {
            IndirectType::Empty | IndirectType::Static => None,
            IndirectType::Heap | IndirectType::Box | IndirectType::Arc | IndirectType::Rc => Some(
                self.ty,
            ),
        }
    }

    /// The memory is dropped with the string if and only if the leak flag, bit zero, is off; and
    /// it is wrapped against being dropped otherwise.
    proof fn law_flag_decides_drop(self)
        requires
            self.wf(),
        ensures
            self.claim is Kept <==> self.flags.bits() & 1 == 0,
            self.claim is Leaked <==> self.flags.bits() & 1 == 1,
            self.claim matches Claim::Kept(ptr) ==> ptr == self.buffer(),
            self.claim matches Claim::Leaked(ptr) ==> ptr@ == self.buffer(),
            self.drops_buffer() <==> self.claim is Kept,
            self.leaks() <==> self.claim is Leaked,
    {
        let bits = self.flags.bits();
        assert((bits >> 0u16) & 1 == bits & 1 && (bits & 1 == 0 || bits & 1 == 1)) by (bit_vector);
    }

    /// The memory is dropped with the string if and only if it is not left behind.
    pub(crate) proof fn lemma_drop(self)
        requires
            self.wf(),
        ensures
            self.drops_buffer() <==> !self.leaks(),
    {
    }

    /// The text fits, no memory means no text, and a buffer of the string's own means text that
    /// cannot be kept inline.
    pub(crate) proof fn lemma_text(self)
        requires
            self.wf(),
        ensures
            fits(self.text()),
            self.kind() == IndirectType::Empty ==> self.text() == Seq::<char>::empty(),
            self.kind() == IndirectType::Heap ==> encode_utf8(self.text()).len() > INLINE_LEN,
    {
    }

    /// The text.
    #[must_use]
    pub(crate) fn as_str(&self) -> (s: &str)
        requires
            self.wf(),
        ensures
            s@ == self.text(),
            match self.buffer() {
                Ptr::Null | Ptr::Heap(_) => true,
                Ptr::Static(p) => s == p,
                Ptr::Box(p) => s == &*p,
                Ptr::Arc(p) => s == &*p.buffer(),
                Ptr::Rc(p) => s == &*p.buffer(),
            },
    {
        match self.claim.as_ptr() {
            Ptr::Null => {
                let nil = self.nil.as_slice();
                let s = core::str::from_utf8(nil).unwrap();
                proof {
                    encode_utf8_decode_utf8(s@);
                }
                s
            },
            Ptr::Static(s) => s,
            Ptr::Heap(s) => s.as_str(),
            Ptr::Box(s) => &**s,
            Ptr::Arc(s) => s.as_str(),
            Ptr::Rc(s) => s.as_str(),
        }
    }
}

} // verus!
