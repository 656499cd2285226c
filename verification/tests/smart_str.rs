use std::collections::hash_map::DefaultHasher;
use std::collections::HashMap;
use std::hash::{Hash, Hasher};
use std::ptr;
use std::rc::Rc;
use std::sync::Arc;

use smartstr::{FromText, IndirectType, SmartStr, StorageType};

/// Whether the text is kept within the bytes of the string itself.
fn lies_in_the_string(s: &SmartStr) -> bool {
    let start = ptr::from_ref(s).cast::<u8>().addr();
    let text = s.as_str().as_ptr().addr();
    start <= text && text + s.len() <= start + std::mem::size_of::<SmartStr>()
}

#[test]
fn smartstr_test() {
    let hello = SmartStr::new_static("123456789ABCDEF");
    assert!(hello.storage_type().is_static());
    println!("{}", hello.to_string());
    let bigger = SmartStr::new_static("This is a much longer string, but it is static.");
    assert!(bigger.storage_type().is_static());
    println!("{}", bigger.to_string());
    let inline = SmartStr::new("inline");
    assert!(inline.storage_type().is_inline());
    assert!(inline == "inline");
    println!("{}", inline.to_string());
    let longer = SmartStr::new(
        "This is a longer string. I don't know how long it has to be (at least 16 bytes).",
    );
    assert!(longer.storage_type().is_heap());
    println!("{}", longer.to_string());
    lolevel::checks::assert_niche::<SmartStr>();
    lolevel::checks::assert_niche::<Option<SmartStr>>();
    lolevel::checks::assert_niche::<Option<Option<SmartStr>>>();
    let boxed = SmartStr::from_text(Box::from("hello, world!"));
    println!("{}", boxed.to_string());
    assert!(boxed.storage_type().is_box());
    let arc = SmartStr::from_text(Arc::from("hello, world!"));
    println!("{}", arc.to_string());
    assert!(arc.storage_type().is_arc());
    let rc = SmartStr::from_text(Rc::from("\"hello, world!\""));
    println!("{}", rc.to_string());
    assert!(rc.storage_type().is_rc());
    let foo = SmartStr::new_static("foo\nbar");
    println!("Debug: {}", foo.to_debug_string());

    let mut map = HashMap::<SmartStr, SmartStr>::new();
    map.insert(
        SmartStr::new_static("test"),
        SmartStr::new_static("hello, world!"),
    );
    if let Some(hello) = map.get("test") {
        println!("{}", hello.to_string());
    }

    assert!(inline.storage_type().is_inline());

    let empty = SmartStr::new("");
    assert!(empty.is_empty());
    assert!(empty == "");

    assert!(lies_in_the_string(&empty));

    assert!(lies_in_the_string(&inline));
    assert!(ptr::eq(inline.as_ptr(), inline.as_str().as_ptr()));
    assert!(ptr::eq(longer.as_ptr(), longer.as_str().as_ptr()));

    let arc2 = arc.clone();
    let arc3 = arc.clone();
    assert!(ptr::eq(arc.as_ptr(), arc2.as_ptr()));
    assert!(ptr::eq(arc.as_ptr(), arc3.as_ptr()));
}

#[test]
fn new_picks_storage_by_length() {
    assert!(SmartStr::new("").storage_type() == StorageType::Indirect(IndirectType::Empty));
    assert!(SmartStr::new("a").storage_type() == StorageType::Inline);
    assert!(SmartStr::new("123456789ABCDEF").storage_type() == StorageType::Inline);
    let heap = StorageType::Indirect(IndirectType::Heap);
    assert!(SmartStr::new("123456789ABCDEF0").storage_type() == heap);
    assert_eq!(SmartStr::INLINE_LEN, 15);
}

#[test]
fn new_counts_bytes_and_not_characters() {
    // Five characters of three bytes each, then one byte more.
    let full = SmartStr::new("\u{20ac}\u{20ac}\u{20ac}\u{20ac}\u{20ac}");
    assert!(full.is_inline());
    assert_eq!(full.len(), 15);
    assert_eq!(full.as_str(), "\u{20ac}\u{20ac}\u{20ac}\u{20ac}\u{20ac}");
    let over = SmartStr::new("\u{20ac}\u{20ac}\u{20ac}\u{20ac}\u{20ac}!");
    assert!(over.is_heap());
    assert_eq!(over.len(), 16);
    assert_eq!(over.as_str(), "\u{20ac}\u{20ac}\u{20ac}\u{20ac}\u{20ac}!");
}

#[test]
fn every_length_reads_back() {
    let text = "0123456789abcdefghij";
    for len in 0..text.len() + 1 {
        let s = SmartStr::new(&text[..len]);
        assert_eq!(s.as_str(), &text[..len]);
        assert_eq!(s.len(), len);
    }
}

#[test]
fn inline_and_empty_text_lie_in_the_string() {
    assert!(lies_in_the_string(&SmartStr::new("a")));
    assert!(lies_in_the_string(&SmartStr::new("123456789ABCDEF")));
    assert!(lies_in_the_string(&SmartStr::new_empty()));
    assert!(lies_in_the_string(&SmartStr::new_empty().leak()));
    assert!(!lies_in_the_string(&SmartStr::new("123456789ABCDEF0")));
    assert!(!lies_in_the_string(&SmartStr::new_static("static")));
}

#[test]
fn short_text_is_adopted_as_it_is() {
    assert!(SmartStr::new_static("").is_static());
    assert!(!SmartStr::new_static("").is_empty());
    assert_eq!(SmartStr::new_static("").len(), 0);
    let boxed = SmartStr::from_box(Box::from("")).unwrap();
    assert!(boxed.is_box());
    assert!(!boxed.is_empty());
    assert!(SmartStr::from_arc(Arc::from("a")).unwrap().is_arc());
    assert!(SmartStr::from_rc(Rc::from("a")).unwrap().is_rc());
}

#[test]
fn adopted_buffers_are_not_copied() {
    let text: Arc<str> = Arc::from("hello, world!");
    let s = SmartStr::from_arc(Arc::clone(&text)).unwrap();
    assert!(ptr::eq(s.as_str().as_ptr(), text.as_ptr()));
    let text: Rc<str> = Rc::from("hello, world!");
    let s = SmartStr::from_rc(Rc::clone(&text)).unwrap();
    assert!(ptr::eq(s.as_str().as_ptr(), text.as_ptr()));
    let text: Box<str> = Box::from("hello, world!");
    let place = text.as_ptr();
    let s = SmartStr::from_box(text).unwrap();
    assert!(ptr::eq(s.as_str().as_ptr(), place));
}

#[test]
fn from_text_matches_the_constructors() {
    assert!(SmartStr::from_text("short").is_inline());
    assert!(SmartStr::from_text("long enough for a buffer").is_heap());
    assert!(SmartStr::from_text(Box::<str>::from("b")) == "b");
    assert!(SmartStr::from_text(Arc::<str>::from("a")) == "a");
    assert!(SmartStr::from_text(Rc::<str>::from("r")) == "r");
}

#[test]
fn static_text_is_known_where_it_is_static() {
    assert_eq!(SmartStr::new_static("abc").as_static_str(), Some("abc"));
    assert_eq!(SmartStr::new_empty().as_static_str(), Some(""));
    assert_eq!(SmartStr::new("abc").as_static_str(), None);
    assert_eq!(SmartStr::new("long enough for a buffer").as_static_str(), None);
    assert_eq!(SmartStr::from_box(Box::from("abc")).unwrap().as_static_str(), None);
    assert_eq!(SmartStr::from_arc(Arc::from("abc")).unwrap().as_static_str(), None);
    assert_eq!(SmartStr::from_rc(Rc::from("abc")).unwrap().as_static_str(), None);
}

#[test]
fn clone_keeps_the_text_and_copies_owned_buffers() {
    let inline = SmartStr::new("inline").clone();
    assert!(inline.is_inline());
    assert_eq!(inline.as_str(), "inline");
    assert!(SmartStr::new_empty().clone().is_empty());
    let fixed = SmartStr::new_static("static").clone();
    assert!(fixed.is_static());
    assert_eq!(fixed.as_str(), "static");
    let heap = SmartStr::new("long enough for a buffer");
    let copy = heap.clone();
    assert!(copy.is_heap());
    assert_eq!(copy.as_str(), "long enough for a buffer");
    assert!(!ptr::eq(heap.as_str().as_ptr(), copy.as_str().as_ptr()));
    let boxed = SmartStr::from_box(Box::from("boxed and long enough")).unwrap();
    let copy = boxed.clone();
    assert!(copy.is_heap());
    assert_eq!(copy.as_str(), "boxed and long enough");
    assert!(copy.clone().is_heap());
    assert!(!ptr::eq(boxed.as_str().as_ptr(), copy.as_str().as_ptr()));
}

#[test]
fn a_clone_of_short_boxed_text_takes_no_buffer() {
    let boxed = SmartStr::from_box(Box::from("boxed")).unwrap();
    assert!(boxed.clone().is_inline());
    assert_eq!(boxed.clone().as_str(), "boxed");
    let full = SmartStr::from_box(Box::from("123456789ABCDEF")).unwrap();
    assert!(full.clone().is_inline());
    assert_eq!(full.clone().as_str(), "123456789ABCDEF");
    let over = SmartStr::from_box(Box::from("123456789ABCDEF0")).unwrap();
    assert!(over.clone().is_heap());
    assert_eq!(over.clone().as_str(), "123456789ABCDEF0");
    let nothing = SmartStr::from_box(Box::from("")).unwrap();
    assert!(nothing.clone().is_empty());
    assert_eq!(nothing.clone().as_str(), "");
}

#[test]
fn clone_shares_counted_buffers() {
    let text: Arc<str> = Arc::from("shared");
    let s = SmartStr::from_arc(Arc::clone(&text)).unwrap();
    let copy = s.clone();
    assert!(copy.is_arc());
    assert_eq!(copy.as_str(), "shared");
    assert_eq!(Arc::strong_count(&text), 3);
    drop(s);
    drop(copy);
    assert_eq!(Arc::strong_count(&text), 1);
    let text: Rc<str> = Rc::from("shared");
    let s = SmartStr::from_rc(Rc::clone(&text)).unwrap();
    let copy = s.clone();
    assert!(copy.is_rc());
    assert_eq!(copy.as_str(), "shared");
    assert_eq!(Rc::strong_count(&text), 3);
    drop(s);
    drop(copy);
    assert_eq!(Rc::strong_count(&text), 1);
}

#[test]
fn leaked_memory_is_left_behind() {
    let text: Arc<str> = Arc::from("left behind");
    drop(SmartStr::from_arc(Arc::clone(&text)).unwrap().leak());
    assert_eq!(Arc::strong_count(&text), 2);
    let text: Rc<str> = Rc::from("left behind");
    drop(SmartStr::from_rc(Rc::clone(&text)).unwrap().leak());
    assert_eq!(Rc::strong_count(&text), 2);
}

#[test]
fn unleak_undoes_leak() {
    let text: Arc<str> = Arc::from("given back");
    let s = SmartStr::from_arc(Arc::clone(&text)).unwrap().leak().leak();
    assert_eq!(s.as_str(), "given back");
    assert!(s.is_arc());
    assert_eq!(s.released(), None);
    let s = s.unleak();
    assert_eq!(s.as_str(), "given back");
    assert_eq!(s.released(), Some(IndirectType::Arc));
    drop(s);
    assert_eq!(Arc::strong_count(&text), 1);
}

#[test]
fn a_clone_of_leaked_memory_is_given_back() {
    let text: Arc<str> = Arc::from("shared");
    let s = SmartStr::from_arc(Arc::clone(&text)).unwrap().leak();
    let copy = s.clone();
    assert_eq!(copy.released(), Some(IndirectType::Arc));
    drop(copy);
    assert_eq!(Arc::strong_count(&text), 2);
    drop(s);
    assert_eq!(Arc::strong_count(&text), 2);
}

#[test]
fn released_says_what_drop_gives_back() {
    assert_eq!(SmartStr::new_empty().released(), None);
    assert_eq!(SmartStr::new_static("abc").released(), None);
    assert_eq!(SmartStr::new("abc").released(), None);
    assert_eq!(SmartStr::new("abc").leak().released(), None);
    let long = "long enough for a buffer";
    assert_eq!(SmartStr::new(long).released(), Some(IndirectType::Heap));
    assert_eq!(SmartStr::from_box(Box::from("b")).unwrap().released(), Some(IndirectType::Box));
    assert_eq!(SmartStr::from_rc(Rc::from("r")).unwrap().released(), Some(IndirectType::Rc));
    assert_eq!(SmartStr::from_box(Box::from("b")).unwrap().leak().released(), None);
}

#[test]
fn marking_keeps_text_and_storage() {
    for s in [
        SmartStr::new_empty(),
        SmartStr::new("inline"),
        SmartStr::new("long enough for a buffer"),
        SmartStr::new_static("static"),
    ] {
        let text = s.to_string();
        let storage = s.storage_type();
        let s = s.leak();
        assert!(s == text);
        assert_eq!(s.storage_type(), storage);
        let s = s.unleak();
        assert!(s == text);
        assert_eq!(s.storage_type(), storage);
    }
}

#[test]
fn strings_compare_by_text_alone() {
    let strings = [
        SmartStr::new("hello"),
        SmartStr::new_static("hello"),
        SmartStr::from_box(Box::from("hello")).unwrap(),
        SmartStr::from_arc(Arc::from("hello")).unwrap(),
        SmartStr::from_rc(Rc::from("hello")).unwrap(),
    ];
    for a in &strings {
        assert!(*a == "hello");
        assert!(*a == *"hello");
        assert!(*a == String::from("hello"));
        assert!(*a != "hallo");
        for b in &strings {
            assert!(a == b);
            assert_eq!(a.cmp(b), std::cmp::Ordering::Equal);
        }
    }
}

#[test]
fn strings_are_ordered_by_bytes() {
    let a = SmartStr::new("a");
    let ab = SmartStr::new_static("ab");
    let b = SmartStr::new("b");
    let accented = SmartStr::new("\u{e9}");
    assert!(SmartStr::new_empty() < a);
    assert!(a < ab);
    assert!(ab < b);
    assert!(a < b);
    assert!(b > ab);
    assert!(b < accented);
    assert!(a <= a.clone());
    assert!(a >= a.clone());
    assert!(a < "b");
    assert!(a < *"b");
    assert!(b > String::from("a"));
    assert_eq!(a.cmp(&b), std::cmp::Ordering::Less);
    assert_eq!(b.cmp(&a), std::cmp::Ordering::Greater);
    assert_eq!(ab.partial_cmp("aa"), Some(std::cmp::Ordering::Greater));
}

#[test]
fn strings_hash_like_their_text() {
    let mut map = HashMap::new();
    map.insert(SmartStr::new("key"), 1);
    assert_eq!(map.get("key"), Some(&1));
    assert_eq!(map.get(&SmartStr::new_static("key")), Some(&1));
    assert_eq!(map.get("yek"), None);
    assert_eq!(map.insert(SmartStr::from_arc(Arc::from("key")).unwrap(), 2), Some(1));
    assert_eq!(map.len(), 1);
}

#[test]
fn a_hasher_moves_as_it_does_for_the_text() {
    let finish = |s: &SmartStr| {
        let mut state = DefaultHasher::new();
        s.hash(&mut state);
        state.finish()
    };
    let mut state = DefaultHasher::new();
    "key".hash(&mut state);
    let expected = state.finish();
    assert_eq!(finish(&SmartStr::new("key")), expected);
    assert_eq!(finish(&SmartStr::new_static("key")), expected);
    assert_eq!(finish(&SmartStr::from_box(Box::from("key")).unwrap()), expected);
    assert_eq!(finish(&SmartStr::from_rc(Rc::from("key")).unwrap()), expected);
    assert_ne!(finish(&SmartStr::new("yek")), expected);
    assert_ne!(DefaultHasher::new().finish(), expected);
}

#[test]
fn slices_are_taken_by_bytes() {
    let s = SmartStr::new("h\u{e9}llo");
    assert_eq!(&s[0..1], "h");
    assert_eq!(&s[1..3], "\u{e9}");
    assert_eq!(&s[3..6], "llo");
    assert_eq!(&s[2 + 1..3], "");
    assert_eq!(&s[0..6], "h\u{e9}llo");
}

#[test]
fn text_is_reached_in_every_way() {
    let s = SmartStr::new("reach");
    let by_ref: &str = s.as_ref();
    let by_borrow: &str = std::borrow::Borrow::borrow(&s);
    assert_eq!(&*s, "reach");
    assert_eq!(by_ref, "reach");
    assert_eq!(by_borrow, "reach");
    assert_eq!(s.to_string(), "reach");
    assert!(s.starts_with("re"));
}

#[test]
fn debug_text_is_quoted_and_escaped() {
    assert_eq!(SmartStr::new_static("foo\nbar").to_debug_string(), "\"foo\\nbar\"");
    assert_eq!(SmartStr::new("\"").to_debug_string(), "\"\\\"\"");
    assert_eq!(SmartStr::new_empty().to_debug_string(), "\"\"");
}
