//! Flags that an indirect string carries beside its text.

use vstd::prelude::*;

verus! {

/// A set of up to sixteen flags, one per bit.
#[derive(Debug, Clone, Copy)]
pub struct IndirectFlags(u16);

impl IndirectFlags {
    /// The flags as a bit mask.
    pub closed spec fn bits(self) -> u16 {
        self.0
    }

    /// Whether the flag at bit `i` is on.
    pub open spec fn contains(self, i: u16) -> bool {
        bit(self.bits(), i)
    }

    /// No flag at all.
    #[must_use]
    pub fn none() -> (flags: Self)
        ensures
            flags.bits() == 0,
    {
        Self(0)
    }

    /// The flag that keeps a buffer alive when its string is dropped, alone.
    #[must_use]
    pub fn leak_flag() -> (flags: Self)
        ensures
            flags.bits() == 1,
    {
        Self(1)
    }

    /// The flags that are off in `self`.
    #[must_use]
    pub fn invert(self) -> (flags: Self)
        ensures
            flags.bits() == !self.bits(),
    {
        Self(!self.0)
    }

    /// Turns every flag of `flags` on or off and leaves the others alone.
    pub fn set(&mut self, flags: Self, on: bool)
        ensures
            final(self).bits() == if on {
                old(self).bits() | flags.bits()
            } else {
                old(self).bits() & !flags.bits()
            },
    {
        if on {
            self.0 |= flags.0;
        } else {
            self.0 &= flags.invert().0;
        }
    }

    /// `self` with every flag of `flags` on.
    #[must_use]
    pub fn with(self, flags: Self) -> (result: Self)
        ensures
            result.bits() == self.bits() | flags.bits(),
    {
        let mut result = self;
        result.set(flags, true);
        result
    }

    /// `self` with every flag of `flags` off.
    #[must_use]
    pub fn without(self, flags: Self) -> (result: Self)
        ensures
            result.bits() == self.bits() & !flags.bits(),
    {
        let mut result = self;
        result.set(flags, false);
        result
    }

    /// Whether `self` shares a flag with `flags`.
    #[must_use]
    pub fn has_any(self, flags: Self) -> (result: bool)
        ensures
            result == (self.bits() & flags.bits() != 0),
    {
        self.0 & flags.0 != 0
    }

    /// Whether every flag of `flags` is on in `self`.
    #[must_use]
    pub fn has_all(self, flags: Self) -> (result: bool)
        ensures
            result == (self.bits() & flags.bits() == flags.bits()),
    {
        self.0 & flags.0 == flags.0
    }

    /// Whether no flag of `flags` is on in `self`.
    #[must_use]
    pub fn has_none(self, flags: Self) -> (result: bool)
        ensures
            result == (self.bits() & flags.bits() == 0),
    {
        self.0 & flags.0 == 0
    }

    /// Whether the leak flag is on.
    #[must_use]
    pub fn leak(self) -> (result: bool)
        ensures
            result == self.contains(0),
            result == (self.bits() & 1 == 1),
    {
        proof {
            lemma_leak_bit(self.bits());
        }
        self.has_all(Self::leak_flag())
    }

    /// Turns the leak flag on or off.
    pub fn set_leak(&mut self, on: bool)
        ensures
            final(self).bits() == if on {
                old(self).bits() | 1
            } else {
                old(self).bits() & !1u16
            },
            final(self).contains(0) == on,
    {
        proof {
            lemma_leak_bit(self.bits());
        }
        self.set(Self::leak_flag(), on)
    }

    /// `self` with the leak flag on.
    #[must_use]
    pub fn with_leak(self) -> (result: Self)
        ensures
            result.bits() == self.bits() | 1,
            result.contains(0),
    {
        proof {
            lemma_leak_bit(self.bits());
        }
        self.with(Self::leak_flag())
    }

    /// `self` with the leak flag off.
    #[must_use]
    pub fn without_leak(self) -> (result: Self)
        ensures
            result.bits() == self.bits() & !1u16,
            !result.contains(0),
    {
        proof {
            lemma_leak_bit(self.bits());
        }
        self.without(Self::leak_flag())
    }
}

/// The leak flag is bit zero: testing, setting and clearing it work on that bit.
proof fn lemma_leak_bit(bits: u16)
    by (bit_vector)
    ensures
        (bits & 1 == 1) == ((bits >> 0u16) & 1 == 1),
        ((bits | 1) >> 0u16) & 1 == 1,
        ((bits & !1u16) >> 0u16) & 1 != 1,
{
}

/// Whether bit `i` of `bits` is on.
pub open spec fn bit(bits: u16, i: u16) -> bool {
    (bits >> i) & 1 == 1
}

/// Masks that agree on every bit are equal.
proof fn lemma_equal_bits(x: u16, y: u16)
    requires
        forall|i: u16| i < 16 ==> bit(x, i) == bit(y, i),
    ensures
        x == y,
{
    assert(bit(x, 0) == bit(y, 0) && bit(x, 1) == bit(y, 1) && bit(x, 2) == bit(y, 2));
    assert(bit(x, 3) == bit(y, 3) && bit(x, 4) == bit(y, 4) && bit(x, 5) == bit(y, 5));
    assert(bit(x, 6) == bit(y, 6) && bit(x, 7) == bit(y, 7) && bit(x, 8) == bit(y, 8));
    assert(bit(x, 9) == bit(y, 9) && bit(x, 10) == bit(y, 10) && bit(x, 11) == bit(y, 11));
    assert(bit(x, 12) == bit(y, 12) && bit(x, 13) == bit(y, 13) && bit(x, 14) == bit(y, 14));
    assert(bit(x, 15) == bit(y, 15));
    assert(x == y) by (bit_vector)
        requires
            bit(x, 0) == bit(y, 0) && bit(x, 1) == bit(y, 1) && bit(x, 2) == bit(y, 2),
            bit(x, 3) == bit(y, 3) && bit(x, 4) == bit(y, 4) && bit(x, 5) == bit(y, 5),
            bit(x, 6) == bit(y, 6) && bit(x, 7) == bit(y, 7) && bit(x, 8) == bit(y, 8),
            bit(x, 9) == bit(y, 9) && bit(x, 10) == bit(y, 10) && bit(x, 11) == bit(y, 11),
            bit(x, 12) == bit(y, 12) && bit(x, 13) == bit(y, 13) && bit(x, 14) == bit(y, 14),
            bit(x, 15) == bit(y, 15),
    ;
}

/// Complement, union, difference and intersection of masks act on each bit by itself.
proof fn lemma_bitwise(x: u16, y: u16, i: u16)
    by (bit_vector)
    requires
        i < 16,
    ensures
        bit(!x, i) == !bit(x, i),
        bit(x | y, i) == (bit(x, i) || bit(y, i)),
        bit(x & !y, i) == (bit(x, i) && !bit(y, i)),
        bit(x & y, i) == (bit(x, i) && bit(y, i)),
        !bit(0, i),
{
}

/// Two sets that hold the same flags are the same set.
pub proof fn law_flags_extensional(a: IndirectFlags, b: IndirectFlags)
    requires
        forall|i: u16| i < 16 ==> a.contains(i) == b.contains(i),
    ensures
        a == b,
{
    assert forall|i: u16| i < 16 implies bit(a.bits(), i) == bit(b.bits(), i) by {
        assert(a.contains(i) == b.contains(i));
    }
    lemma_equal_bits(a.bits(), b.bits());
}

/// A flag is on if and only if masking it out of the bits leaves something.
pub proof fn law_flags_masked(a: IndirectFlags, i: u16)
    requires
        i < 16,
    ensures
        a.contains(i) <==> a.bits() & (1u16 << i) != 0,
        a.contains(i) <==> a.bits() | (1u16 << i) == a.bits(),
{
    lemma_masked(a.bits(), i);
}

proof fn lemma_masked(x: u16, i: u16)
    by (bit_vector)
    requires
        i < 16,
    ensures
        bit(x, i) <==> x & (1u16 << i) != 0,
        bit(x, i) <==> x | (1u16 << i) == x,
{
}

/// `invert` flips each flag, `with` adds the flags of its argument and `without` takes them
/// away: no other flag changes.
pub proof fn law_flags_change_alone(a: IndirectFlags, b: IndirectFlags, r: IndirectFlags, i: u16)
    requires
        i < 16,
    ensures
        r.bits() == !a.bits() ==> r.contains(i) == !a.contains(i),
        r.bits() == a.bits() | b.bits() ==> r.contains(i) == (a.contains(i) || b.contains(i)),
        r.bits() == a.bits() & !b.bits() ==> r.contains(i) == (a.contains(i) && !b.contains(i)),
{
    lemma_bitwise(a.bits(), b.bits(), i);
}

/// `has_any`, `has_all` and `has_none` say of two sets that they meet, that the second lies
/// within the first, and that they are disjoint.
pub proof fn law_flags_queries(a: IndirectFlags, b: IndirectFlags)
    ensures
        (a.bits() & b.bits() != 0) <==> exists|i: u16|
            i < 16 && #[trigger] a.contains(i) && b.contains(i),
        (a.bits() & b.bits() == b.bits()) <==> forall|i: u16|
            i < 16 && #[trigger] b.contains(i) ==> a.contains(i),
        (a.bits() & b.bits() == 0) <==> forall|i: u16|
            i < 16 && #[trigger] a.contains(i) ==> !b.contains(i),
{
    let x = a.bits();
    let y = b.bits();
    assert forall|i: u16| i < 16 implies bit(x & y, i) == (#[trigger] a.contains(i)
        && b.contains(i)) && bit(y, i) == b.contains(i) && !bit(0, i) by {
        lemma_bitwise(x, y, i);
    }
    if forall|i: u16| i < 16 && #[trigger] a.contains(i) ==> !b.contains(i) {
        assert forall|i: u16| i < 16 implies bit(x & y, i) == bit(0, i) by {
            assert(bit(x & y, i) == (a.contains(i) && b.contains(i)));
        }
        lemma_equal_bits(x & y, 0);
    } else {
        let i = choose|i: u16| i < 16 && #[trigger] a.contains(i) && b.contains(i);
        assert(bit(x & y, i) && !bit(0, i));
    }
    if forall|i: u16| i < 16 && #[trigger] b.contains(i) ==> a.contains(i) {
        assert forall|i: u16| i < 16 implies bit(x & y, i) == bit(y, i) by {
            assert(bit(x & y, i) == (a.contains(i) && b.contains(i)));
        }
        lemma_equal_bits(x & y, y);
    } else {
        let i = choose|i: u16| i < 16 && #[trigger] b.contains(i) && !a.contains(i);
        assert(bit(x & y, i) == (a.contains(i) && b.contains(i)));
        assert(bit(y, i));
    }
}

/// Flags that were turned on are all there, flags that were turned off are all gone, turning
/// off undoes turning on where none was on before, turning on undoes turning off where all
/// were on before, and inverting twice changes nothing.
pub proof fn law_flags_undo(a: IndirectFlags, f: IndirectFlags)
    ensures
        (a.bits() | f.bits()) & f.bits() == f.bits(),
        (a.bits() & !f.bits()) & f.bits() == 0,
        a.bits() & f.bits() == 0 ==> (a.bits() | f.bits()) & !f.bits() == a.bits(),
        a.bits() & f.bits() == f.bits() ==> (a.bits() & !f.bits()) | f.bits() == a.bits(),
        !!a.bits() == a.bits(),
{
    lemma_undo(a.bits(), f.bits());
}

proof fn lemma_undo(x: u16, y: u16)
    by (bit_vector)
    ensures
        (x | y) & y == y,
        (x & !y) & y == 0,
        x & y == 0 ==> (x | y) & !y == x,
        x & y == y ==> (x & !y) | y == x,
        !!x == x,
{
}

} // verus!
