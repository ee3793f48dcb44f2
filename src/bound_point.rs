//! Extended endpoints: a proximity tag, the value order built on it, and the
//! endpoint type that intervals are made of.

pub mod bound_point;
pub mod bound_proximity;
pub mod bound_value;

pub use self::bound_point::BoundPoint;
pub use self::bound_proximity::BoundProximity;
pub use self::bound_value::BoundValue;
