//! Text on its way to a hasher.

use std::hash::{Hash, Hasher};

use vstd::prelude::*;

verus! {

/// `<str as Hash>::hash`, which feeds text to a hasher. No clause says which state that leaves: it
/// is up to the hasher, which can be any type. Contracts say instead that a state is one which
/// this call may leave.
#[verifier::external_body]
pub fn hash_text<H: Hasher>(s: &str, state: &mut H) {
    s.hash(state)
}

/// A value on its way to a function, moved there as it is.
pub(crate) struct Hold<A>(pub(crate) A);

/// Calls `f` with a text and a state.
pub(crate) fn feed<A, F: Fn(&str, A)>(f: F, s: &str, state: Hold<A>)
    requires
        call_requires(f, (s, state.0)),
    ensures
        call_ensures(f, (s, state.0), ()),
{
    f(s, state.0)
}

} // verus!
