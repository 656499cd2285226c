# smartstr

A string for Rust that picks where its text is kept: in itself up to fifteen bytes, in a buffer
of its own above that, or where the text already is (static memory, a `Box`, an `Arc`, an `Rc`).
It is verified with Verus.

- `src/model.rs` says what a string is: its text, its storage, and whether it is left behind
  when it is dropped.
- `src/smart_str.rs` is the string; `src/inline.rs` and `src/indirect.rs` are its two forms,
  `src/storage.rs` and `src/flags.rs` the parts they are made of.
- `src/access.rs`, `src/convert.rs` and `src/order.rs` reach, make and compare strings;
  `src/bytes.rs` is the lexicographic order of bytes.
- `src/laws.rs`, and the `law_` functions beside the types, hold what was proved of several
  operations together.
- `src/text.rs` and `src/hashing.rs` hold what is taken from the standard library on trust.
- `app/` wraps the string in a type with the standard traits that panic, format, or are generic
  over other traits.
