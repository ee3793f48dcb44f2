use core::cmp::Ordering;
use vstd::prelude::*;

verus! {

/// The ordering of two integers, as `Ord::cmp` would give it.
pub open spec fn ordering_of(a: int, b: int) -> Ordering {
    if a < b {
        Ordering::Less
    } else if a > b {
        Ordering::Greater
    } else {
        Ordering::Equal
    }
}

/// Where a finite endpoint lies relative to its value: just before it,
/// exactly at it, or just after it. Ordered `Before < At < After`.
#[derive(Debug, Clone, Copy, PartialEq, Eq, Structural, Ord)]
pub enum BoundProximity {
    /// Immediately below the value: an exclusive upper endpoint, `[.., v)`.
    Before,
    /// Exactly the value: an inclusive endpoint, `[v, ..]` or `[.., v]`.
    At,
    /// Immediately above the value: an exclusive lower endpoint, `(v, ..)`.
    After,
}

impl BoundProximity {
    /// Position of the proximity in the order `Before < At < After`.
    pub open spec fn rank(self) -> int {
        match self {
            BoundProximity::Before => 0,
            BoundProximity::At => 1,
            BoundProximity::After => 2,
        }
    }

    /// The three-way comparison of two proximities.
    pub open spec fn order(self, other: Self) -> Ordering {
        ordering_of(self.rank(), other.rank())
    }

    fn index(&self) -> (r: u8)
        ensures
            r as int == self.rank(),
    {
        match self {
            BoundProximity::Before => 0,
            BoundProximity::At => 1,
            BoundProximity::After => 2,
        }
    }
}

impl PartialOrd for BoundProximity {
    fn partial_cmp(&self, other: &Self) -> (r: Option<Ordering>) {
        let a = self.index();
        let b = other.index();
        if a < b {
            Some(Ordering::Less)
        } else if a > b {
            Some(Ordering::Greater)
        } else {
            Some(Ordering::Equal)
        }
    }
}

impl vstd::std_specs::cmp::PartialOrdSpecImpl for BoundProximity {
    open spec fn obeys_partial_cmp_spec() -> bool {
        true
    }

    open spec fn partial_cmp_spec(&self, other: &Self) -> Option<Ordering> {
        Some(self.order(*other))
    }
}

/// Proximities are ordered `Before < At < After`.
pub proof fn lemma_proximity_chain()
    ensures
        BoundProximity::Before.order(BoundProximity::At) == Ordering::Less,
        BoundProximity::At.order(BoundProximity::After) == Ordering::Less,
        BoundProximity::Before.order(BoundProximity::After) == Ordering::Less,
{
}

/// The proximity order is antisymmetric: two proximities that are each at
/// most the other are equal, and `p < q` exactly when `q > p`.
pub proof fn lemma_proximity_antisymmetric(p: BoundProximity, q: BoundProximity)
    ensures
        p.order(q) != Ordering::Greater && q.order(p) != Ordering::Greater ==> p == q,
        p.order(q) == Ordering::Less <==> q.order(p) == Ordering::Greater,
        p.order(q) == Ordering::Equal <==> p == q,
{
}

/// The proximity order is transitive, for the strict and the non-strict order.
pub proof fn lemma_proximity_transitive(p: BoundProximity, q: BoundProximity, s: BoundProximity)
    ensures
        p.order(q) == Ordering::Less && q.order(s) == Ordering::Less ==> p.order(s)
            == Ordering::Less,
        p.order(q) != Ordering::Greater && q.order(s) != Ordering::Greater ==> p.order(s)
            != Ordering::Greater,
{
}

} // verus!
