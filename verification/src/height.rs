//! Block heights and their order.

use vstd::prelude::*;

verus! {

/// A position on a chain: a revision and a block number within it.
///
/// Heights are ordered first by revision, then by block number.
#[derive(Clone, Copy, Debug, PartialEq, Eq, Structural, PartialOrd, Ord, Hash)]
pub struct Height {
    pub revision: u64,
    pub block_number: u64,
}

impl Height {
    /// `self` comes strictly before `other`.
    pub open spec fn precedes(self, other: Height) -> bool {
        self.revision < other.revision || (self.revision == other.revision && self.block_number
            < other.block_number)
    }

    /// `self` comes before `other` or equals it.
    pub open spec fn at_most(self, other: Height) -> bool {
        self.precedes(other) || self == other
    }

    /// The later of two heights.
    pub open spec fn later_of(self, other: Height) -> Height {
        if self.precedes(other) {
            other
        } else {
            self
        }
    }

    pub fn new(revision: u64, block_number: u64) -> (h: Height)
        ensures
            h.revision == revision,
            h.block_number == block_number,
    {
        Height { revision, block_number }
    }

    pub fn revision(&self) -> (r: u64)
        ensures
            r == self.revision,
    {
        self.revision
    }

    pub fn block_number(&self) -> (r: u64)
        ensures
            r == self.block_number,
    {
        self.block_number
    }

    /// Strict order test.
    pub fn lt(&self, other: &Height) -> (r: bool)
        ensures
            r == self.precedes(*other),
    {
        self.revision < other.revision || (self.revision == other.revision && self.block_number
            < other.block_number)
    }

    /// Non-strict order test.
    pub fn le(&self, other: &Height) -> (r: bool)
        ensures
            r == self.at_most(*other),
    {
        self.lt(other) || (self.revision == other.revision && self.block_number
            == other.block_number)
    }

    /// Strict order test, reversed.
    pub fn gt(&self, other: &Height) -> (r: bool)
        ensures
            r == other.precedes(*self),
    {
        other.lt(self)
    }

    /// The later of two heights; `self` when they are equal.
    pub fn max(self, other: Height) -> (r: Height)
        ensures
            r == self.later_of(other),
            self.at_most(r),
            other.at_most(r),
    {
        if self.lt(&other) {
            other
        } else {
            self
        }
    }
}

/// No height precedes itself.
pub proof fn height_order_irreflexive(a: Height)
    ensures
        !a.precedes(a),
{
}

/// If `a` precedes `b` and `b` precedes `c`, then `a` precedes `c`.
pub proof fn height_order_transitive(a: Height, b: Height, c: Height)
    requires
        a.precedes(b),
        b.precedes(c),
    ensures
        a.precedes(c),
{
}

/// Of two heights exactly one holds: the first precedes the second, they are
/// equal, or the second precedes the first.
pub proof fn height_order_total(a: Height, b: Height)
    ensures
        a.precedes(b) || a == b || b.precedes(a),
        !(a.precedes(b) && a == b),
        !(a.precedes(b) && b.precedes(a)),
        !(a == b && b.precedes(a)),
{
}

} // verus!
