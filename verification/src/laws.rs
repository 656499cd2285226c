//! What the operations on strings do, what they keep, and what they undo.

use std::rc::Rc;
use std::sync::Arc;

use vstd::prelude::*;
use vstd::utf8::encode_utf8;

use crate::model::{fits, Source, StrModel};
use crate::order::text_order;
use crate::smart_str::SmartStr;
use crate::storage::{IndirectType, StorageType, MAX_LEN};

verus! {

/// A text fits if and only if it takes at most 2^32 - 1 bytes in UTF-8, up to fifteen of which
/// can be kept inline, and the bytes of a string are those of its text.
pub proof fn law_limit(text: Seq<char>, s: StrModel)
    ensures
        SmartStr::INLINE_LEN == 15,
        MAX_LEN == 0xffff_ffff,
        fits(text) <==> encode_utf8(text).len() <= 0xffff_ffff,
        s.bytes() == encode_utf8(s.text),
{
}

/// A string has at most 2^32 - 1 bytes. An inline one has one to fifteen and nothing to leave
/// behind, an empty one has none, and one with a buffer of its own has more than fifteen. Memory
/// that was handed over holds the text, and is of the kind that the storage says.
pub proof fn law_valid(s: StrModel)
    requires
        s.valid(),
    ensures
        encode_utf8(s.text).len() <= 0xffff_ffff,
        s.storage == StorageType::Inline ==> 1 <= encode_utf8(s.text).len() <= 15 && !s.leaks,
        s.storage == StorageType::Indirect(IndirectType::Empty) ==> s.text.len() == 0,
        s.storage == StorageType::Indirect(IndirectType::Heap) ==> encode_utf8(s.text).len() > 15,
        s.storage == StorageType::Indirect(IndirectType::Static) <==> s.source is Static,
        s.storage == StorageType::Indirect(IndirectType::Box) <==> s.source is Box,
        s.storage == StorageType::Indirect(IndirectType::Arc) <==> s.source is Arc,
        s.storage == StorageType::Indirect(IndirectType::Rc) <==> s.source is Rc,
        s.source matches Source::Static(p) ==> p@ == s.text,
        s.source matches Source::Box(p) ==> p@ == s.text,
        s.source matches Source::Arc(p, _) ==> (*p)@ == s.text,
        s.source matches Source::Rc(p, _) ==> (*p)@ == s.text,
{
}

/// A string reads back as the text that it was made from, whether that was copied or adopted.
pub proof fn law_reads_back(text: Seq<char>, ty: IndirectType, source: Source)
    ensures
        StrModel::copied(text).text == text,
        StrModel::adopted(text, ty, source).text == text,
        StrModel::empty().text.len() == 0,
{
}

/// Memory that is handed over is taken as it is, whatever its text: it is kept at its own kind,
/// it is that very memory, and it is given back in the end.
pub proof fn law_adopted_as_it_is(text: Seq<char>, ty: IndirectType, source: Source)
    ensures
        StrModel::adopted(text, ty, source).storage == StorageType::Indirect(ty),
        StrModel::adopted(text, ty, source).source == source,
        !StrModel::adopted(text, ty, source).leaks,
        StrModel::adopted(text, ty, source).storage != StorageType::Inline,
        ty != IndirectType::Empty && ty != IndirectType::Static ==> StrModel::adopted(
            text,
            ty,
            source,
        ).released() == Some(ty),
{
}

/// The text alone decides how a copy of it is kept: nowhere if it is empty, inline up to
/// fifteen bytes, in a buffer above. A copy refers to no memory that was handed over.
pub proof fn law_copy_storage(text: Seq<char>)
    ensures
        StrModel::copied(text).storage == StorageType::Indirect(IndirectType::Empty) <==> text.len()
            == 0,
        StrModel::copied(text).storage == StorageType::Inline <==> 1 <= encode_utf8(text).len()
            <= 15,
        StrModel::copied(text).storage == StorageType::Indirect(IndirectType::Heap)
            <==> encode_utf8(text).len() > 15,
        StrModel::copied(text).source is Copied,
        !StrModel::copied(text).leaks,
        StrModel::empty().storage == StorageType::Indirect(IndirectType::Empty),
        StrModel::empty().source is Copied,
        !StrModel::empty().leaks,
        text.len() == 0 ==> StrModel::copied(text) == StrModel::empty(),
{
    assert(encode_utf8(Seq::<char>::empty()).len() == 0);
    if text.len() == 0 {
        assert(text =~= Seq::<char>::empty());
    }
}

/// Strings that are made from text that fits are valid.
pub proof fn law_made_valid(text: Seq<char>, ty: IndirectType, source: Source)
    requires
        encode_utf8(text).len() <= 0xffff_ffff,
        source.serves(text, StorageType::Indirect(ty)),
    ensures
        StrModel::empty().valid(),
        StrModel::copied(text).valid(),
        ty != IndirectType::Empty && (ty == IndirectType::Heap ==> encode_utf8(text).len() > 15)
            ==> StrModel::adopted(text, ty, source).valid(),
{
    assert(encode_utf8(Seq::<char>::empty()).len() == 0);
    if encode_utf8(text).len() == 0 {
        assert(text.len() == 0);
    }
}

/// Every kind of memory can be handed over, with any text that fits, the empty one too.
pub proof fn law_adopted_valid(
    fixed: &'static str,
    boxed: Box<str>,
    arc: Arc<str>,
    rc: Rc<str>,
    n: nat,
)
    ensures
        encode_utf8(fixed@).len() <= 0xffff_ffff ==> StrModel::adopted(
            fixed@,
            IndirectType::Static,
            Source::Static(fixed),
        ).valid(),
        encode_utf8(boxed@).len() <= 0xffff_ffff ==> StrModel::adopted(
            boxed@,
            IndirectType::Box,
            Source::Box(boxed),
        ).valid(),
        encode_utf8((*arc)@).len() <= 0xffff_ffff ==> StrModel::adopted(
            (*arc)@,
            IndirectType::Arc,
            Source::Arc(arc, n),
        ).valid(),
        encode_utf8((*rc)@).len() <= 0xffff_ffff ==> StrModel::adopted(
            (*rc)@,
            IndirectType::Rc,
            Source::Rc(rc, n),
        ).valid(),
{
}

/// Marking and cloning keep a string valid.
pub proof fn law_kept_valid(s: StrModel)
    requires
        s.valid(),
    ensures
        s.leaked().valid(),
        s.unleaked().valid(),
        s.cloned().valid(),
{
}

/// Marking and cloning keep the text, and marking keeps where it is and the very memory that it
/// is in.
pub proof fn law_text_kept(s: StrModel)
    ensures
        s.leaked().text == s.text,
        s.unleaked().text == s.text,
        s.cloned().text == s.text,
        s.leaked().storage == s.storage,
        s.unleaked().storage == s.storage,
        s.leaked().source == s.source,
        s.unleaked().source == s.source,
{
}

/// Marking marks every string but an inline one, and unmarking leaves no mark.
pub proof fn law_marks(s: StrModel)
    ensures
        s.leaked().leaks <==> s.storage != StorageType::Inline,
        !s.unleaked().leaks,
{
}

/// Unmarking undoes marking, marking undoes unmarking, and doing either twice is doing it once.
pub proof fn law_leak_undone(s: StrModel)
    requires
        s.valid(),
    ensures
        s.leaked().unleaked() == s.unleaked(),
        s.unleaked().leaked() == s.leaked(),
        s.leaked().leaked() == s.leaked(),
        s.unleaked().unleaked() == s.unleaked(),
        !s.leaks ==> s.leaked().unleaked() == s,
        s.leaks ==> s.unleaked().leaked() == s,
{
}

/// An inline string has nothing to leave behind: marking it changes nothing.
pub proof fn law_inline_never_leaks(s: StrModel)
    requires
        s.valid(),
        s.storage == StorageType::Inline,
    ensures
        s.leaked() == s,
        s.unleaked() == s,
        s.released() is None,
{
}

/// A string marked to be left behind gives nothing back, and an unmarked one gives back the
/// memory that it has, if it is neither inline, nor empty, nor static.
pub proof fn law_released(s: StrModel)
    ensures
        s.leaked().released() is None,
        s.unleaked().released() == match s.storage {
            StorageType::Indirect(IndirectType::Empty) => None,
            StorageType::Indirect(IndirectType::Static) => None,
            StorageType::Indirect(ty) => Some(ty),
            StorageType::Inline => None::<IndirectType>,
        },
        s.released() is Some ==> s.storage == StorageType::Indirect(s.released().unwrap()),
{
}

/// A string gives its memory back if and only if it has memory to give back and is not marked to
/// leave it behind; what it gives back is of the kind that it has.
pub proof fn law_given_back(s: StrModel, ty: IndirectType)
    ensures
        s.released() == Some(ty) <==> !s.leaks && s.storage == StorageType::Indirect(ty) && (ty
            == IndirectType::Heap || ty == IndirectType::Box || ty == IndirectType::Arc || ty
            == IndirectType::Rc),
{
}

/// Marking and unmarking neither take nor abandon a share: the share that was handed over, or
/// taken by a clone, is the very one that is given back in the end, and it is given back.
pub proof fn law_one_share_given_back(s: StrModel)
    requires
        s.valid(),
        s.source is Arc || s.source is Rc,
    ensures
        s.leaked().unleaked().source == s.source,
        s.unleaked().source == s.source,
        s.leaked().released() is None,
        s.source is Arc ==> s.leaked().unleaked().released() == Some(IndirectType::Arc),
        s.source is Rc ==> s.leaked().unleaked().released() == Some(IndirectType::Rc),
{
}

/// A clone of a string in shared memory is in that very memory, whatever the text, and holds a
/// share of its own, which it gives back even where the other is left behind.
pub proof fn law_clone_shares(s: StrModel)
    requires
        s.valid(),
    ensures
        s.source matches Source::Arc(p, n) ==> s.cloned().source == Source::Arc(p, n + 1)
            && s.cloned().storage == StorageType::Indirect(IndirectType::Arc)
            && s.cloned().released() == Some(IndirectType::Arc),
        s.source matches Source::Rc(p, n) ==> s.cloned().source == Source::Rc(p, n + 1)
            && s.cloned().storage == StorageType::Indirect(IndirectType::Rc)
            && s.cloned().released() == Some(IndirectType::Rc),
        s.source matches Source::Static(p) ==> s.cloned().source == Source::Static(p),
        s.source is Arc || s.source is Rc ==> s.cloned().source != s.source,
{
}

/// A clone of text that a string owns alone is a copy of it, and refers to no memory that was
/// handed over.
pub proof fn law_clone_copies(s: StrModel)
    requires
        s.valid(),
        !(s.source is Static) && !(s.source is Arc) && !(s.source is Rc),
    ensures
        s.cloned() == StrModel::copied(s.text),
        s.cloned().source is Copied,
        !s.cloned().leaks,
{
    assert(encode_utf8(Seq::<char>::empty()).len() == 0);
    if s.text.len() == 0 {
        assert(s.text =~= Seq::<char>::empty());
    }
    if s.storage == StorageType::Indirect(IndirectType::Empty) {
        assert(encode_utf8(s.text).len() == 0);
    }
}

/// A clone compares as equal to the string it was made from, and is marked to be left behind only
/// if that string is static and marked. A clone of boxed text is a copy of it. Its own clone is no
/// different from it, but for being one more share where the memory is shared.
pub proof fn law_clone(s: StrModel)
    requires
        s.valid(),
    ensures
        text_order(s.text, s.cloned().text) == std::cmp::Ordering::Equal,
        s.cloned().cloned() == (StrModel { source: s.cloned().source.cloned(), ..s.cloned() }),
        !(s.source is Arc) && !(s.source is Rc) ==> s.cloned().cloned() == s.cloned(),
        s.source matches Source::Arc(p, n) ==> s.cloned().cloned().source == Source::Arc(p, n + 2),
        s.source matches Source::Rc(p, n) ==> s.cloned().cloned().source == Source::Rc(p, n + 2),
        s.cloned().leaks <==> s.leaks && s.storage == StorageType::Indirect(IndirectType::Static),
        s.storage != StorageType::Indirect(IndirectType::Box) ==> s.cloned().storage == s.storage,
        s.storage == StorageType::Indirect(IndirectType::Box) ==> s.cloned() == StrModel::copied(
            s.text,
        ),
{
}

/// Static text is handed out for the empty string and for static strings, and is the text.
pub proof fn law_static_text(s: StrModel)
    requires
        s.valid(),
    ensures
        s.static_text() is Some <==> s.storage == StorageType::Indirect(IndirectType::Empty)
            || s.storage == StorageType::Indirect(IndirectType::Static),
        s.static_text() is Some ==> s.static_text() == Some(s.text),
{
    if s.storage == StorageType::Indirect(IndirectType::Empty) {
        assert(s.text =~= Seq::<char>::empty());
    }
}

/// What a copy reads as is the text that was copied, and its length is the number of its bytes.
pub proof fn law_new_reads(s: &str, made: SmartStr, read: &str, len: usize, owned: String)
    requires
        fits(s@),
        call_ensures(SmartStr::new, (s,), made),
        call_ensures(SmartStr::as_str, (&made,), read),
        call_ensures(SmartStr::len, (&made,), len),
        call_ensures(SmartStr::to_string, (&made,), owned),
    ensures
        read@ == s@,
        owned@ == s@,
        len == encode_utf8(s@).len(),
{
}

/// A copy of borrowed text has nothing handed over and is kept by its length; what is asked of it
/// is answered by that.
pub proof fn law_new_kept(s: &str, made: SmartStr, storage: StorageType)
    requires
        fits(s@),
        call_ensures(SmartStr::new, (s,), made),
        call_ensures(SmartStr::storage_type, (&made,), storage),
    ensures
        storage == if encode_utf8(s@).len() == 0 {
            StorageType::Indirect(IndirectType::Empty)
        } else if encode_utf8(s@).len() <= 15 {
            StorageType::Inline
        } else {
            StorageType::Indirect(IndirectType::Heap)
        },
        made@.source is Copied,
        !made@.leaks,
{
}

/// Static text is referred to, whatever its length: reading gives that very text.
pub proof fn law_new_static(
    s: &'static str,
    made: SmartStr,
    read: &str,
    lasting: Option<&'static str>,
)
    requires
        fits(s@),
        call_ensures(SmartStr::new_static, (s,), made),
        call_ensures(SmartStr::as_str, (&made,), read),
        call_ensures(SmartStr::as_static_str, (&made,), lasting),
    ensures
        made@.storage == StorageType::Indirect(IndirectType::Static),
        made@.source == Source::Static(s),
        !made@.leaks,
        read == s,
        lasting == Some(s),
{
}

/// A box is taken over as it is, whatever the length of its text, unless that does not fit: the
/// box is handed back in that case alone.
pub proof fn law_from_box(s: Box<str>, made: Result<SmartStr, Box<str>>)
    requires
        call_ensures(SmartStr::from_box, (s,), made),
    ensures
        made is Ok <==> encode_utf8(s@).len() <= 0xffff_ffff,
        made matches Ok(string) ==> string@.text == s@ && string@.storage == StorageType::Indirect(
            IndirectType::Box,
        ) && string@.source == Source::Box(s) && !string@.leaks,
        made matches Err(back) ==> back == s,
{
}

/// A share of an `Arc` is taken over as it is, whatever the length of its text, unless that does
/// not fit: the share is handed back in that case alone.
pub proof fn law_from_arc(s: Arc<str>, made: Result<SmartStr, Arc<str>>)
    requires
        call_ensures(SmartStr::from_arc, (s,), made),
    ensures
        made is Ok <==> encode_utf8((*s)@).len() <= 0xffff_ffff,
        made matches Ok(string) ==> string@.text == (*s)@ && string@.storage
            == StorageType::Indirect(IndirectType::Arc) && string@.source == Source::Arc(s, 0)
            && !string@.leaks,
        made matches Err(back) ==> back == s,
{
}

/// A share of an `Rc` is taken over as it is, whatever the length of its text, unless that does
/// not fit: the share is handed back in that case alone.
pub proof fn law_from_rc(s: Rc<str>, made: Result<SmartStr, Rc<str>>)
    requires
        call_ensures(SmartStr::from_rc, (s,), made),
    ensures
        made is Ok <==> encode_utf8((*s)@).len() <= 0xffff_ffff,
        made matches Ok(string) ==> string@.text == (*s)@ && string@.storage
            == StorageType::Indirect(IndirectType::Rc) && string@.source == Source::Rc(s, 0)
            && !string@.leaks,
        made matches Err(back) ==> back == s,
{
}

/// Reading a string that was made of handed over memory gives the very text in that memory.
pub proof fn law_reads_in_place(s: SmartStr, read: &str)
    requires
        s@.valid(),
        call_ensures(SmartStr::as_str, (&s,), read),
    ensures
        read@ == s@.text,
        s@.source matches Source::Static(p) ==> read == p,
        s@.source matches Source::Box(p) ==> read == &*p,
        s@.source matches Source::Arc(p, _) ==> read == &*p,
        s@.source matches Source::Rc(p, _) ==> read == &*p,
{
}

/// Leaving a string behind and taking it back changes nothing but the mark: the text, its place
/// and the very memory stay, no share is taken and none is abandoned, and what was to be given
/// back in the end is again.
pub proof fn law_leak_then_unleak(
    s: SmartStr,
    left: SmartStr,
    back: SmartStr,
    nothing: Option<IndirectType>,
    released: Option<IndirectType>,
)
    requires
        s@.valid(),
        call_ensures(SmartStr::leak, (s,), left),
        call_ensures(SmartStr::unleak, (left,), back),
        call_ensures(SmartStr::released, (&left,), nothing),
        call_ensures(SmartStr::released, (&back,), released),
    ensures
        left@.text == s@.text && left@.storage == s@.storage && left@.source == s@.source,
        left@.leaks <==> s@.storage != StorageType::Inline,
        nothing is None,
        back@.text == s@.text && back@.storage == s@.storage && back@.source == s@.source,
        !back@.leaks,
        !s@.leaks ==> back@ == s@,
        s@.storage == StorageType::Indirect(IndirectType::Heap) ==> released == Some(
            IndirectType::Heap,
        ),
        s@.storage == StorageType::Indirect(IndirectType::Box) ==> released == Some(
            IndirectType::Box,
        ),
        s@.storage == StorageType::Indirect(IndirectType::Arc) ==> released == Some(
            IndirectType::Arc,
        ),
        s@.storage == StorageType::Indirect(IndirectType::Rc) ==> released == Some(
            IndirectType::Rc,
        ),
        s@.storage == StorageType::Indirect(IndirectType::Empty) ==> released is None,
        s@.storage == StorageType::Indirect(IndirectType::Static) ==> released is None,
        s@.storage == StorageType::Inline ==> released is None,
{
}

/// Cloning a string of shared or static memory, whatever its length, gives one that reads the
/// very same memory; a clone of a shared one holds one more share, to be given back. Cloning any
/// other string gives a copy, kept by its length.
pub proof fn law_clone_in_place(s: SmartStr, clone: SmartStr, read: &str, released: Option<
    IndirectType,
>)
    requires
        s@.valid(),
        call_ensures(SmartStr::clone, (&s,), clone),
        call_ensures(SmartStr::as_str, (&clone,), read),
        call_ensures(SmartStr::released, (&clone,), released),
    ensures
        read@ == s@.text,
        s@.source matches Source::Arc(p, n) ==> read == &*p && clone@.source == Source::Arc(
            p,
            n + 1,
        ) && clone@.storage == s@.storage && released == Some(IndirectType::Arc),
        s@.source matches Source::Rc(p, n) ==> read == &*p && clone@.source == Source::Rc(p, n + 1)
            && clone@.storage == s@.storage && released == Some(IndirectType::Rc),
        s@.source matches Source::Static(p) ==> read == p && clone@ == s@,
        s@.source is Copied || s@.source is Box ==> clone@.source is Copied && !clone@.leaks
            && clone@.storage == if encode_utf8(s@.text).len() == 0 {
            StorageType::Indirect(IndirectType::Empty)
        } else if encode_utf8(s@.text).len() <= 15 {
            StorageType::Inline
        } else {
            StorageType::Indirect(IndirectType::Heap)
        },
{
    law_clone(s@);
    if s@.source is Copied || s@.source is Box {
        law_clone_copies(s@);
        law_copy_storage(s@.text);
    }
}

/// A string knows which kind it is, and is of one kind only.
pub proof fn law_kinds_asked(
    s: SmartStr,
    storage: StorageType,
    inline: bool,
    empty: bool,
    fixed: bool,
    heap: bool,
    boxed: bool,
    arc: bool,
    rc: bool,
)
    requires
        call_ensures(SmartStr::storage_type, (&s,), storage),
        call_ensures(SmartStr::is_inline, (&s,), inline),
        call_ensures(SmartStr::is_empty, (&s,), empty),
        call_ensures(SmartStr::is_static, (&s,), fixed),
        call_ensures(SmartStr::is_heap, (&s,), heap),
        call_ensures(SmartStr::is_box, (&s,), boxed),
        call_ensures(SmartStr::is_arc, (&s,), arc),
        call_ensures(SmartStr::is_rc, (&s,), rc),
    ensures
        storage == s@.storage,
        inline <==> storage == StorageType::Inline,
        empty <==> storage == StorageType::Indirect(IndirectType::Empty),
        fixed <==> storage == StorageType::Indirect(IndirectType::Static),
        heap <==> storage == StorageType::Indirect(IndirectType::Heap),
        boxed <==> storage == StorageType::Indirect(IndirectType::Box),
        arc <==> storage == StorageType::Indirect(IndirectType::Arc),
        rc <==> storage == StorageType::Indirect(IndirectType::Rc),
        arc <==> s@.source is Arc,
        rc <==> s@.source is Rc,
        boxed <==> s@.source is Box,
        fixed <==> s@.source is Static,
{
}

} // verus!
