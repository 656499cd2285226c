//! An immutable string that picks where its text is kept.
//!
//! A [`SmartStr`] keeps up to fifteen bytes in itself, longer text in a buffer of its own, and
//! text that was handed over where it already is: in static memory, in a box, or in a buffer
//! that is shared through an `Arc` or an `Rc`. What a string is, apart from how it is laid out,
//! is its [`model::StrModel`]: its text, where that is kept, the memory that it was handed, and
//! whether dropping the string leaves the memory behind. Contracts speak of that model, and the
//! laws in [`laws`] say what the operations do, what they keep and what they undo.

pub mod access;
pub mod bytes;
pub mod convert;
pub mod flags;
mod hashing;
mod indirect;
mod inline;
pub mod laws;
pub mod model;
pub mod order;
pub mod smart_str;
pub mod storage;
pub mod text;

pub use convert::FromText;
pub use flags::IndirectFlags;
pub use smart_str::SmartStr;
pub use storage::{Footer, IndirectType, StorageType};
