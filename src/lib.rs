//! Points and intervals on an arbitrary totally ordered axis, with exact
//! control over open, closed and unbounded endpoints.
//!
//! A finite endpoint is a value of the axis together with a proximity
//! (just before, exactly at, just after the value); with the two infinities
//! added, all endpoints share one total order, and membership and overlap of
//! intervals reduce to two comparisons each.

pub mod bound_point;
pub mod interval;

pub use bound_point::{BoundPoint, BoundProximity, BoundValue};
pub use interval::{Interval, IntervalError, IntervalType};

