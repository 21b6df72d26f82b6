use vstd::prelude::*;

verus! {

/// A four-component vector of one scalar type.
///
/// The component order (x, y, z, w) is fixed: it is the order in which the
/// packed-lane representation stores the components, and every contract in
/// this crate speaks of the components by these names.
#[derive(Clone, Copy, Debug)]
pub struct Vector4<S> {
    pub x: S,
    pub y: S,
    pub z: S,
    pub w: S,
}

impl<S> Vector4<S> {
    /// Builds a vector from its four components, in order. Total: it stores
    /// the scalars and nothing else.
    pub fn new(x: S, y: S, z: S, w: S) -> (r: Self)
        ensures
            r == (Vector4 { x, y, z, w }),
    {
        Vector4 { x, y, z, w }
    }
}

} // verus!
