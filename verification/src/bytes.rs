//! The lexicographic order of byte strings.

use vstd::prelude::*;

verus! {

/// Whether `a` comes before `b` at position `i`: they agree up to there, and there `a` ends or
/// has the smaller byte.
pub open spec fn precedes_at(a: Seq<u8>, b: Seq<u8>, i: int) -> bool {
    &&& 0 <= i < b.len()
    &&& i <= a.len()
    &&& a.take(i) == b.take(i)
    &&& i == a.len() || a[i] < b[i]
}

/// Whether `a` comes before `b`.
pub open spec fn precedes(a: Seq<u8>, b: Seq<u8>) -> bool {
    exists|i: int| precedes_at(a, b, i)
}

/// Where one byte string stands to another.
pub(crate) enum Side {
    Before,
    Same,
    Behind,
}

/// Finds where `a` stands to `b`.
pub(crate) fn side(a: &[u8], b: &[u8]) -> (side: Side)
    ensures
        match side {
            Side::Before => precedes(a@, b@),
            Side::Same => a@ == b@,
            Side::Behind => precedes(b@, a@),
        },
{
    let mut i: usize = 0;
    while i < a.len() && i < b.len()
        invariant
            i <= a@.len(),
            i <= b@.len(),
            a@.take(i as int) == b@.take(i as int),
        decreases a@.len() - i,
    {
        if a[i] < b[i] {
            assert(precedes_at(a@, b@, i as int));
            return Side::Before;
        }
        if b[i] < a[i] {
            assert(precedes_at(b@, a@, i as int));
            return Side::Behind;
        }
        i += 1;
        assert(a@.take(i as int) =~= b@.take(i as int));
    }
    if i < b.len() {
        assert(precedes_at(a@, b@, i as int));
        Side::Before
    } else if i < a.len() {
        assert(precedes_at(b@, a@, i as int));
        Side::Behind
    } else {
        assert(a@.take(i as int) =~= a@);
        assert(b@.take(i as int) =~= b@);
        Side::Same
    }
}

/// At the first byte where two byte strings differ, wherever that is, the one with the smaller
/// byte comes first, whatever follows.
pub proof fn law_first_difference(p: Seq<u8>, x: u8, y: u8, u: Seq<u8>, v: Seq<u8>)
    requires
        x < y,
    ensures
        precedes(p.push(x) + u, p.push(y) + v),
        !precedes(p.push(y) + v, p.push(x) + u),
        p.push(x) + u != p.push(y) + v,
{
    let a = p.push(x) + u;
    let b = p.push(y) + v;
    let i = p.len() as int;
    assert(a.take(i) =~= b.take(i));
    assert(a[i] == x && b[i] == y);
    assert(precedes_at(a, b, i));
    law_precedes_asymmetric(a, b);
}

/// A byte string comes before every longer one that starts with it.
pub proof fn law_prefix_first(p: Seq<u8>, rest: Seq<u8>)
    requires
        rest.len() > 0,
    ensures
        precedes(p, p + rest),
        !precedes(p + rest, p),
{
    assert(p.take(p.len() as int) =~= (p + rest).take(p.len() as int));
    assert(precedes_at(p, p + rest, p.len() as int));
    law_precedes_asymmetric(p, p + rest);
}

/// No byte string comes before itself, and no two come before each other.
pub proof fn law_precedes_asymmetric(a: Seq<u8>, b: Seq<u8>)
    requires
        precedes(a, b),
    ensures
        !precedes(b, a),
        a != b,
{
    let i = choose|i: int| precedes_at(a, b, i);
    assert forall|j: int| !precedes_at(b, a, j) by {
        if precedes_at(b, a, j) {
            if i < j {
                assert(b.take(j)[i] == a.take(j)[i]);
            } else if j < i {
                assert(a.take(i)[j] == b.take(i)[j]);
            }
        }
    }
}

/// The order is transitive.
pub proof fn law_precedes_transitive(a: Seq<u8>, b: Seq<u8>, c: Seq<u8>)
    requires
        precedes(a, b),
        precedes(b, c),
    ensures
        precedes(a, c),
{
    let i = choose|i: int| precedes_at(a, b, i);
    let j = choose|j: int| precedes_at(b, c, j);
    if i < j {
        assert(b.take(j)[i] == c.take(j)[i]);
        assert(a.take(i) =~= c.take(i)) by {
            assert(b.take(i) =~= b.take(j).take(i));
            assert(c.take(i) =~= c.take(j).take(i));
        }
        assert(precedes_at(a, c, i));
    } else {
        assert(a.take(j) =~= c.take(j)) by {
            assert(a.take(j) =~= a.take(i).take(j));
            assert(b.take(j) =~= b.take(i).take(j));
        }
        if j < i {
            assert(a.take(i)[j] == b.take(i)[j]);
        }
        assert(precedes_at(a, c, j));
    }
}

/// Of two byte strings that differ, one comes before the other.
pub proof fn law_precedes_total(a: Seq<u8>, b: Seq<u8>)
    ensures
        a == b || precedes(a, b) || precedes(b, a),
{
    assert(a.take(0) =~= b.take(0));
    lemma_total_from(a, b, 0);
}

/// Byte strings that agree up to `i` are the same or differ behind it.
proof fn lemma_total_from(a: Seq<u8>, b: Seq<u8>, i: int)
    requires
        0 <= i <= a.len(),
        i <= b.len(),
        a.take(i) == b.take(i),
    ensures
        a == b || precedes(a, b) || precedes(b, a),
    decreases a.len() - i,
{
    if i == a.len() && i == b.len() {
        assert(a =~= a.take(i));
        assert(b =~= b.take(i));
    } else if i == a.len() || (i < b.len() && a[i] < b[i]) {
        assert(precedes_at(a, b, i));
    } else if i == b.len() || b[i] < a[i] {
        assert(precedes_at(b, a, i));
    } else {
        assert(a.take(i + 1) =~= b.take(i + 1)) by {
            assert(a.take(i + 1) =~= a.take(i).push(a[i]));
            assert(b.take(i + 1) =~= b.take(i).push(b[i]));
        }
        lemma_total_from(a, b, i + 1);
    }
}

} // verus!
