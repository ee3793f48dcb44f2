use crate::bound_point::bound_value::{
    lemma_axis_order, lemma_value_order_converse, lemma_value_order_transitive,
};
use crate::bound_point::{BoundPoint, BoundProximity, BoundValue};
use core::cmp::Ordering;
use vstd::laws_cmp::{obeys_cmp, obeys_cmp_ord, obeys_cmp_partial_ord};
use vstd::prelude::*;
use vstd::std_specs::cmp::OrdSpec;

verus! {

/// Which of the two finite endpoints of an interval are inclusive.
#[derive(Debug, Clone, Copy, PartialEq, Eq, Structural)]
pub enum IntervalType {
    /// Both endpoints excluded: `(start, end)`.
    Open,
    /// Start excluded, end included: `(start, end]`.
    StartOpen,
    /// Start included, end excluded: `[start, end)`.
    EndOpen,
    /// Both endpoints included: `[start, end]`.
    Close,
}

/// Why an interval could not be built.
#[derive(Debug, Clone, Copy, PartialEq, Eq, Structural)]
pub enum IntervalError {
    /// The start value lies above the end value.
    StartMustBeMinorThanEnd,
}

/// The finite point on `value` with the given proximity.
pub open spec fn finite_point<T: Ord>(value: T, proximity: BoundProximity) -> BoundPoint<T> {
    BoundPoint { value: BoundValue::Finite(value, proximity) }
}

/// The start and end points that an interval of the given kind between
/// `start` and `end` is made of.
pub open spec fn endpoints_of<T: Ord>(start: T, end: T, kind: IntervalType) -> (
    BoundPoint<T>,
    BoundPoint<T>,
) {
    let lower = match kind {
        IntervalType::Open | IntervalType::StartOpen => BoundProximity::After,
        IntervalType::EndOpen | IntervalType::Close => BoundProximity::At,
    };
    let upper = match kind {
        IntervalType::Open | IntervalType::EndOpen => BoundProximity::Before,
        IntervalType::StartOpen | IntervalType::Close => BoundProximity::At,
    };
    (finite_point(start, lower), finite_point(end, upper))
}

/// A range of the axis between two endpoints. It is fixed once built.
#[derive(Debug, Clone, Copy, PartialEq)]
pub struct Interval<T> where T: Ord {
    start: BoundPoint<T>,
    end: BoundPoint<T>,
}

impl<T: Ord> Interval<T> {
    /// The lower endpoint.
    pub closed spec fn start_point(self) -> BoundPoint<T> {
        self.start
    }

    /// The upper endpoint.
    pub closed spec fn end_point(self) -> BoundPoint<T> {
        self.end
    }

    /// `value` lies within the interval: `start <= at(value) <= end`.
    pub open spec fn spec_contains(self, value: T) -> bool {
        &&& self.start_point().is_at_most(finite_point(value, BoundProximity::At))
        &&& finite_point(value, BoundProximity::At).is_at_most(self.end_point())
    }

    /// The two intervals share a point: each one starts at or before the
    /// other one ends.
    pub open spec fn spec_overlaps(self, other: Self) -> bool {
        &&& self.start_point().is_at_most(other.end_point())
        &&& other.start_point().is_at_most(self.end_point())
    }

    /// The shape every interval has: the start is `NegInfinity` or a finite
    /// point at or just after its value, the end is `PosInfinity` or a finite
    /// point at or just before its value, and a finite start value is at most
    /// a finite end value.
    pub open spec fn well_formed(self) -> bool {
        &&& match self.start_point().value {
            BoundValue::NegInfinity => true,
            BoundValue::Finite(_, p) => p != BoundProximity::Before,
            BoundValue::PosInfinity => false,
        }
        &&& match self.end_point().value {
            BoundValue::NegInfinity => false,
            BoundValue::Finite(_, p) => p != BoundProximity::After,
            BoundValue::PosInfinity => true,
        }
        &&& match (self.start_point().value, self.end_point().value) {
            (BoundValue::Finite(a, _), BoundValue::Finite(b, _)) => {
                a.cmp_spec(&b) != Ordering::Greater
            },
            _ => true,
        }
    }

    /// Builds the interval of the given kind between `start` and `end`.
    /// Fails when `start` lies above `end`; equal values are accepted for
    /// every kind, an `Open` one then holding no value.
    pub fn from_to(start: T, end: T, interval_type: IntervalType) -> (r: Result<Self, IntervalError>)
        requires
            obeys_cmp::<T>(),
        ensures
            r is Err <==> start.cmp_spec(&end) == Ordering::Greater,
            r matches Err(e) ==> e == IntervalError::StartMustBeMinorThanEnd,
            r matches Ok(i) ==> {
                &&& (i.start_point(), i.end_point()) == endpoints_of(start, end, interval_type)
                &&& i.well_formed()
            },
    {
        match Self::validate(&start, &end) {
            Err(e) => Err(e),
            Ok(()) => match interval_type {
                IntervalType::Open => Ok(
                    Interval { start: BoundPoint::after(start), end: BoundPoint::before(end) },
                ),
                IntervalType::StartOpen => Ok(
                    Interval { start: BoundPoint::after(start), end: BoundPoint::at(end) },
                ),
                IntervalType::EndOpen => Ok(
                    Interval { start: BoundPoint::at(start), end: BoundPoint::before(end) },
                ),
                IntervalType::Close => Ok(
                    Interval { start: BoundPoint::at(start), end: BoundPoint::at(end) },
                ),
            },
        }
    }

    /// The values above `value`: `(value, +inf)`.
    pub fn since_exclusive(value: T) -> (r: Self)
        ensures
            r.start_point() == finite_point(value, BoundProximity::After),
            r.end_point().value == BoundValue::<T>::PosInfinity,
            r.well_formed(),
    {
        Interval { start: BoundPoint::after(value), end: BoundPoint::pos_infinity() }
    }

    /// The values from `value` on: `[value, +inf)`.
    pub fn since_inclusive(value: T) -> (r: Self)
        ensures
            r.start_point() == finite_point(value, BoundProximity::At),
            r.end_point().value == BoundValue::<T>::PosInfinity,
            r.well_formed(),
    {
        Interval { start: BoundPoint::at(value), end: BoundPoint::pos_infinity() }
    }

    /// The values below `value`: `(-inf, value)`.
    pub fn until_exclusive(value: T) -> (r: Self)
        ensures
            r.start_point().value == BoundValue::<T>::NegInfinity,
            r.end_point() == finite_point(value, BoundProximity::Before),
            r.well_formed(),
    {
        Interval { start: BoundPoint::neg_infinity(), end: BoundPoint::before(value) }
    }

    /// The values up to `value`: `(-inf, value]`.
    pub fn until_inclusive(value: T) -> (r: Self)
        ensures
            r.start_point().value == BoundValue::<T>::NegInfinity,
            r.end_point() == finite_point(value, BoundProximity::At),
            r.well_formed(),
    {
        Interval { start: BoundPoint::neg_infinity(), end: BoundPoint::at(value) }
    }

    /// Checks that `start` does not lie above `end`.
    fn validate(start: &T, end: &T) -> (r: Result<(), IntervalError>)
        requires
            obeys_cmp::<T>(),
        ensures
            r is Err <==> start.cmp_spec(end) == Ordering::Greater,
            r matches Err(e) ==> e == IntervalError::StartMustBeMinorThanEnd,
    {
        proof {
            reveal(obeys_cmp_ord);
            reveal(obeys_cmp_partial_ord);
        }
        if start > end {
            Err(IntervalError::StartMustBeMinorThanEnd)
        } else {
            Ok(())
        }
    }

    /// Whether `value` lies within the interval.
    pub fn contains(&self, value: T) -> (r: bool)
        requires
            obeys_cmp::<T>(),
        ensures
            r == self.spec_contains(value),
    {
        let bound_point = BoundPoint::at(value);
        proof {
            reveal(obeys_cmp_ord);
            lemma_value_order_converse(self.end.value, bound_point.value);
        }
        self.start <= bound_point && self.end >= bound_point
    }

    /// Whether the two intervals share at least one point.
    pub fn overlaps(&self, other: &Interval<T>) -> (r: bool)
        requires
            obeys_cmp::<T>(),
        ensures
            r == self.spec_overlaps(*other),
    {
        proof {
            reveal(obeys_cmp_ord);
            lemma_value_order_converse(self.end.value, other.start.value);
        }
        self.start <= other.end && self.end >= other.start
    }
}

/// Equal endpoints are accepted: `from_to(x, x, kind)` succeeds for every
/// kind, since `x` does not lie above itself.
pub proof fn lemma_equal_endpoints_accepted<T: Ord>(x: T)
    requires
        obeys_cmp::<T>(),
    ensures
        x.cmp_spec(&x) != Ordering::Greater,
{
    lemma_axis_order::<T>();
}

/// An open interval whose two endpoints are the same value holds no value:
/// its start, just after `x`, lies above its end, just before `x`.
pub proof fn lemma_open_point_interval_is_empty<T: Ord>(i: Interval<T>, x: T, value: T)
    requires
        obeys_cmp::<T>(),
        (i.start_point(), i.end_point()) == endpoints_of(x, x, IntervalType::Open),
    ensures
        !i.spec_contains(value),
{
    lemma_axis_order::<T>();
}

/// Overlap does not depend on the order of the two intervals.
pub proof fn lemma_overlaps_symmetric<T: Ord>(a: Interval<T>, b: Interval<T>)
    ensures
        a.spec_overlaps(b) == b.spec_overlaps(a),
{
}

/// Two intervals that contain a common value overlap.
pub proof fn lemma_common_value_overlaps<T: Ord>(a: Interval<T>, b: Interval<T>, value: T)
    requires
        obeys_cmp::<T>(),
        a.spec_contains(value),
        b.spec_contains(value),
    ensures
        a.spec_overlaps(b),
{
    let p = finite_point(value, BoundProximity::At);
    lemma_value_order_transitive(a.start_point().value, p.value, b.end_point().value);
    lemma_value_order_transitive(b.start_point().value, p.value, a.end_point().value);
}

} // verus!
