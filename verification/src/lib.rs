//! A fixed-width, four-component numeric vector with two verified paths for
//! each elementwise operation: a component-wise default that exists for every
//! scalar type, and an optimized route through a packed four-lane
//! representation for scalar types with the lane-packing capability. Both
//! paths carry one and the same contract, so they agree on every input, and
//! the conversions between the two representations are proved to be exact
//! inverses that keep the component order.

pub mod laws;
pub mod ops;
pub mod packed;
pub mod scalar;
pub mod vector;
