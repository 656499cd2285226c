use smartstr::storage::StrLen;
use smartstr::{Footer, IndirectFlags, IndirectType, StorageType};

#[test]
fn one_byte_tells_the_storage() {
    lolevel::checks::assert_same_size_align::<IndirectType, u8>();
    lolevel::checks::assert_same_size_align::<StorageType, u8>();
    lolevel::checks::assert_same_size_align::<Footer, u8>();
    lolevel::checks::assert_same_size_align::<StrLen, u8>();
}

#[test]
fn length_tags_are_their_numbers() {
    for len in 0..16 {
        assert_eq!(StrLen::from_usize(len).as_usize(), len);
    }
    assert_eq!(StrLen::Addr.as_usize(), StrLen::ADDR);
    assert_eq!(StrLen::Lx0A.as_usize(), 10);
    assert_eq!(StrLen::Lx0F.as_usize(), 15);
    assert_eq!(Footer::indirect().len().as_usize(), 0);
}

#[test]
fn each_storage_answers_to_one_question() {
    let kinds = [
        IndirectType::Empty,
        IndirectType::Static,
        IndirectType::Heap,
        IndirectType::Box,
        IndirectType::Arc,
        IndirectType::Rc,
    ];
    for i in 0..kinds.len() {
        let storage = StorageType::Indirect(kinds[i]);
        let answers = [
            storage.is_empty(),
            storage.is_static(),
            storage.is_heap(),
            storage.is_box(),
            storage.is_arc(),
            storage.is_rc(),
        ];
        for j in 0..answers.len() {
            assert_eq!(answers[j], i == j);
        }
        assert!(!storage.is_inline());
        assert_eq!(kinds[i].is_empty(), i == 0);
        assert!(storage < StorageType::Inline);
    }
    assert!(StorageType::Inline.is_inline());
    assert!(!StorageType::Inline.is_empty());
    assert!(!StorageType::Inline.is_heap());
}

#[test]
fn flags_are_set_and_cleared() {
    let none = IndirectFlags::none();
    let leak = IndirectFlags::leak_flag();
    assert!(!none.leak());
    assert!(leak.leak());
    assert!(none.with(leak).leak());
    assert!(!leak.without(leak).leak());
    assert!(none.with_leak().leak());
    assert!(!leak.without_leak().leak());
    let mut flags = none;
    flags.set_leak(true);
    assert!(flags.leak());
    flags.set_leak(false);
    assert!(!flags.leak());
    flags.set(leak.invert(), true);
    assert!(!flags.leak());
    assert!(flags.has_any(leak.invert()));
    flags.set(leak.invert(), false);
    assert!(flags.has_none(none.invert()));
}

#[test]
fn flags_are_asked_as_sets() {
    let none = IndirectFlags::none();
    let leak = IndirectFlags::leak_flag();
    let all = none.invert();
    assert!(all.has_all(leak));
    assert!(all.has_any(leak));
    assert!(!all.has_none(leak));
    assert!(!leak.has_all(all));
    assert!(leak.has_any(all));
    assert!(none.has_all(none));
    assert!(!none.has_any(all));
    assert!(none.has_none(all));
    assert!(leak.invert().has_none(leak));
    assert!(all.invert().has_none(all));
}
