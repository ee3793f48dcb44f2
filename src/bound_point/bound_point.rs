use crate::bound_point::bound_proximity::BoundProximity;
use crate::bound_point::bound_value::BoundValue;
use core::cmp::Ordering;
use vstd::std_specs::cmp::OrdSpec;
use vstd::prelude::*;

verus! {

/// One endpoint of an interval: an extended position on the axis. Points
/// compare as their positions do.
#[derive(Debug, Clone, Copy, PartialEq, Eq, Ord)]
pub struct BoundPoint<T> where T: Ord {
    pub value: BoundValue<T>,
}

impl<T: Ord> BoundPoint<T> {
    /// `self < other` in the order of positions.
    pub open spec fn is_below(self, other: Self) -> bool {
        self.value.is_below(other.value)
    }

    /// `self <= other` in the order of positions.
    pub open spec fn is_at_most(self, other: Self) -> bool {
        self.value.is_at_most(other.value)
    }

    /// The point just below `value`: an exclusive upper endpoint.
    pub fn before(value: T) -> (r: Self)
        ensures
            r.value == BoundValue::Finite(value, BoundProximity::Before),
    {
        Self { value: BoundValue::Finite(value, BoundProximity::Before) }
    }

    /// The point at `value`: an inclusive endpoint.
    pub fn at(value: T) -> (r: Self)
        ensures
            r.value == BoundValue::Finite(value, BoundProximity::At),
    {
        Self { value: BoundValue::Finite(value, BoundProximity::At) }
    }

    /// The point just above `value`: an exclusive lower endpoint.
    pub fn after(value: T) -> (r: Self)
        ensures
            r.value == BoundValue::Finite(value, BoundProximity::After),
    {
        Self { value: BoundValue::Finite(value, BoundProximity::After) }
    }

    /// The point below every other point.
    pub fn neg_infinity() -> (r: Self)
        ensures
            r.value == BoundValue::<T>::NegInfinity,
    {
        Self { value: BoundValue::NegInfinity }
    }

    /// The point above every other point.
    pub fn pos_infinity() -> (r: Self)
        ensures
            r.value == BoundValue::<T>::PosInfinity,
    {
        Self { value: BoundValue::PosInfinity }
    }
}

impl<T: Ord> PartialOrd for BoundPoint<T> {
    fn partial_cmp(&self, other: &Self) -> (r: Option<Ordering>) {
        self.value.partial_cmp(&other.value)
    }
}

impl<T: Ord> vstd::std_specs::cmp::PartialOrdSpecImpl for BoundPoint<T> {
    open spec fn obeys_partial_cmp_spec() -> bool {
        T::obeys_cmp_spec()
    }

    open spec fn partial_cmp_spec(&self, other: &Self) -> Option<Ordering> {
        Some(self.value.order(other.value))
    }
}

} // verus!
