use crate::bound_point::bound_proximity::{ordering_of, BoundProximity};
use core::cmp::Ordering;
use vstd::std_specs::cmp::{OrdSpec, PartialEqSpec, PartialOrdSpec};
use vstd::laws_cmp::{
    obeys_cmp, obeys_cmp_ord, obeys_cmp_partial_ord, obeys_partial_cmp_spec_properties,
};
use vstd::laws_eq::obeys_eq_spec_properties;
use vstd::prelude::*;

verus! {

/// A position on an ordered axis extended by the two infinities. A finite
/// position is a value of the axis with a proximity that places it just
/// before, at, or just after that value.
///
/// Ordered `NegInfinity < Finite(..) < PosInfinity`; two finite positions
/// compare by their values first and by their proximities only when the
/// values are equal.
#[derive(Debug, Clone, Copy, PartialEq, Eq, Ord)]
pub enum BoundValue<T> where T: Ord {
    /// Below every other position.
    NegInfinity,
    /// A value of the axis, with its proximity.
    Finite(T, BoundProximity),
    /// Above every other position.
    PosInfinity,
}

impl<T: Ord> BoundValue<T> {
    /// Position of the variant in the order `NegInfinity < Finite < PosInfinity`.
    pub open spec fn rank(self) -> int {
        match self {
            BoundValue::NegInfinity => 0,
            BoundValue::Finite(..) => 1,
            BoundValue::PosInfinity => 2,
        }
    }

    /// The three-way comparison of two positions: by variant, then by the
    /// axis order on the values, then by proximity.
    pub open spec fn order(self, other: Self) -> Ordering {
        match (self, other) {
            (BoundValue::Finite(a, p), BoundValue::Finite(b, q)) => match a.cmp_spec(&b) {
                Ordering::Equal => p.order(q),
                o => o,
            },
            _ => ordering_of(self.rank(), other.rank()),
        }
    }

    /// `self < other` in the order of positions.
    pub open spec fn is_below(self, other: Self) -> bool {
        self.order(other) == Ordering::Less
    }

    /// `self <= other` in the order of positions.
    pub open spec fn is_at_most(self, other: Self) -> bool {
        self.order(other) != Ordering::Greater
    }
}

impl<T: Ord> PartialOrd for BoundValue<T> {
    fn partial_cmp(&self, other: &Self) -> (r: Option<Ordering>) {
        match (self, other) {
            (BoundValue::Finite(a, p), BoundValue::Finite(b, q)) => match a.cmp(b) {
                Ordering::Equal => p.partial_cmp(q),
                o => Some(o),
            },
            (BoundValue::NegInfinity, BoundValue::NegInfinity) => Some(Ordering::Equal),
            (BoundValue::PosInfinity, BoundValue::PosInfinity) => Some(Ordering::Equal),
            (BoundValue::NegInfinity, _) => Some(Ordering::Less),
            (_, BoundValue::PosInfinity) => Some(Ordering::Less),
            _ => Some(Ordering::Greater),
        }
    }
}

impl<T: Ord> vstd::std_specs::cmp::PartialOrdSpecImpl for BoundValue<T> {
    open spec fn obeys_partial_cmp_spec() -> bool {
        T::obeys_cmp_spec()
    }

    open spec fn partial_cmp_spec(&self, other: &Self) -> Option<Ordering> {
        Some(self.order(*other))
    }
}

/// The axis order of a lawful `Ord` type, stated over `cmp_spec`: every
/// value equals itself, the two directions agree, equality is symmetric, and strict and non-strict steps
/// chain.
pub proof fn lemma_axis_order<T: Ord>()
    requires
        obeys_cmp::<T>(),
    ensures
        forall|x: T| #[trigger] x.cmp_spec(&x) == Ordering::Equal,
        forall|x: T, y: T|
            #[trigger] x.cmp_spec(&y) == Ordering::Less <==> y.cmp_spec(&x) == Ordering::Greater,
        forall|x: T, y: T|
            #[trigger] x.cmp_spec(&y) == Ordering::Equal ==> y.cmp_spec(&x) == Ordering::Equal,
        forall|x: T, y: T, z: T|
            x.cmp_spec(&y) != Ordering::Greater && #[trigger] y.cmp_spec(&z) != Ordering::Greater
                ==> #[trigger] x.cmp_spec(&z) != Ordering::Greater,
        forall|x: T, y: T, z: T|
            x.cmp_spec(&y) == Ordering::Equal && #[trigger] y.cmp_spec(&z) == Ordering::Equal
                ==> #[trigger] x.cmp_spec(&z) == Ordering::Equal,
        forall|x: T, y: T, z: T|
            x.cmp_spec(&y) == Ordering::Less && #[trigger] y.cmp_spec(&z) != Ordering::Greater
                ==> #[trigger] x.cmp_spec(&z) == Ordering::Less,
        forall|x: T, y: T, z: T|
            x.cmp_spec(&y) != Ordering::Greater && #[trigger] y.cmp_spec(&z) == Ordering::Less
                ==> #[trigger] x.cmp_spec(&z) == Ordering::Less,
{
    reveal(obeys_cmp_ord);
    reveal(obeys_cmp_partial_ord);
    reveal(obeys_partial_cmp_spec_properties);
    reveal(obeys_eq_spec_properties);
    assert forall|x: T, y: T| #[trigger]
        x.cmp_spec(&y) == Ordering::Less <==> y.cmp_spec(&x) == Ordering::Greater by {
        assert(x.partial_cmp_spec(&y) == Some(x.cmp_spec(&y)));
        assert(y.partial_cmp_spec(&x) == Some(y.cmp_spec(&x)));
    }
    assert forall|x: T| #[trigger] x.cmp_spec(&x) == Ordering::Equal by {
        assert(x.partial_cmp_spec(&x) == Some(x.cmp_spec(&x)));
    }
    assert forall|x: T, y: T| #[trigger]
        x.cmp_spec(&y) == Ordering::Equal implies y.cmp_spec(&x) == Ordering::Equal by {
        assert(x.partial_cmp_spec(&y) == Some(x.cmp_spec(&y)));
        assert(y.partial_cmp_spec(&x) == Some(y.cmp_spec(&x)));
        assert(x.eq_spec(&y));
    }
    assert forall|x: T, y: T, z: T|
        x.cmp_spec(&y) != Ordering::Greater && #[trigger] y.cmp_spec(&z) != Ordering::Greater
            implies #[trigger] x.cmp_spec(&z) != Ordering::Greater
        && (x.cmp_spec(&y) == Ordering::Equal && y.cmp_spec(&z) == Ordering::Equal ==> x.cmp_spec(&z) == Ordering::Equal)
        && (x.cmp_spec(&y) == Ordering::Less ==> x.cmp_spec(&z) == Ordering::Less)
        && (y.cmp_spec(&z) == Ordering::Less ==> x.cmp_spec(&z) == Ordering::Less) by {
        assert(x.partial_cmp_spec(&y) == Some(x.cmp_spec(&y)));
        assert(y.partial_cmp_spec(&x) == Some(y.cmp_spec(&x)));
        assert(y.partial_cmp_spec(&z) == Some(y.cmp_spec(&z)));
        assert(z.partial_cmp_spec(&y) == Some(z.cmp_spec(&y)));
        assert(x.partial_cmp_spec(&z) == Some(x.cmp_spec(&z)));
        assert(z.partial_cmp_spec(&x) == Some(z.cmp_spec(&x)));
    }
}

/// The order of positions reads the same both ways: `a < b` exactly when
/// `b > a`, and `a` equals `b` in the order exactly when `b` equals `a`.
pub proof fn lemma_value_order_converse<T: Ord>(a: BoundValue<T>, b: BoundValue<T>)
    requires
        obeys_cmp::<T>(),
    ensures
        a.order(b) == Ordering::Less <==> b.order(a) == Ordering::Greater,
        a.order(b) == Ordering::Equal <==> b.order(a) == Ordering::Equal,
        a.is_at_most(b) <==> !b.is_below(a),
{
    lemma_axis_order::<T>();
}

/// The order of positions is transitive, for `<=` and for `<`.
pub proof fn lemma_value_order_transitive<T: Ord>(
    a: BoundValue<T>,
    b: BoundValue<T>,
    c: BoundValue<T>,
)
    requires
        obeys_cmp::<T>(),
    ensures
        a.is_at_most(b) && b.is_at_most(c) ==> a.is_at_most(c),
        a.is_below(b) && b.is_at_most(c) ==> a.is_below(c),
        a.is_at_most(b) && b.is_below(c) ==> a.is_below(c),
{
    lemma_axis_order::<T>();
}

/// A finite position on a smaller value lies below every finite position on
/// a larger value, whatever the two proximities.
pub proof fn lemma_value_dominates_proximity<T: Ord>(
    a: T,
    b: T,
    p: BoundProximity,
    q: BoundProximity,
)
    requires
        obeys_cmp::<T>(),
        a.cmp_spec(&b) == Ordering::Less,
    ensures
        BoundValue::Finite(a, p).is_below(BoundValue::Finite(b, q)),
        BoundValue::Finite(b, q).order(BoundValue::Finite(a, p)) == Ordering::Greater,
{
    lemma_axis_order::<T>();
}

/// `NegInfinity` lies below, and `PosInfinity` above, every other position,
/// the opposite infinity included.
pub proof fn lemma_infinities_are_extreme<T: Ord>(v: BoundValue<T>)
    ensures
        !(v is NegInfinity) ==> BoundValue::<T>::NegInfinity.is_below(v),
        !(v is PosInfinity) ==> v.is_below(BoundValue::<T>::PosInfinity),
        BoundValue::<T>::NegInfinity.is_at_most(v),
        v.is_at_most(BoundValue::<T>::PosInfinity),
{
}

} // verus!
