use vstd::prelude::*;

use crate::scalar::PackedLanes;
use crate::scalar::Scalar;

verus! {

/// The packed four-lane form of a scalar type that has the lane-packing
/// capability. It stands for a lane register: it is built from four scalars
/// in lane order, read back one lane at a time, and combined lane-wise.
#[derive(Clone, Copy, Debug)]
pub struct Packed4<S> {
    pub l0: S,
    pub l1: S,
    pub l2: S,
    pub l3: S,
}

impl<S> Packed4<S> {
    /// The lanes, lowest index first.
    pub open spec fn lanes(self) -> Seq<S> {
        seq![self.l0, self.l1, self.l2, self.l3]
    }
}

/// Lane-wise product of two packed values.
pub open spec fn sp_mul_lanes<S: Scalar>(p: Packed4<S>, q: Packed4<S>) -> Packed4<S> {
    Packed4 {
        l0: S::sp_mul(p.l0, q.l0),
        l1: S::sp_mul(p.l1, q.l1),
        l2: S::sp_mul(p.l2, q.l2),
        l3: S::sp_mul(p.l3, q.l3),
    }
}

/// Lane-wise sum of two packed values.
pub open spec fn sp_add_lanes<S: Scalar>(p: Packed4<S>, q: Packed4<S>) -> Packed4<S> {
    Packed4 {
        l0: S::sp_add(p.l0, q.l0),
        l1: S::sp_add(p.l1, q.l1),
        l2: S::sp_add(p.l2, q.l2),
        l3: S::sp_add(p.l3, q.l3),
    }
}

/// Every lane multiplied by one scalar.
pub open spec fn sp_scale_lanes<S: Scalar>(p: Packed4<S>, k: S) -> Packed4<S> {
    Packed4 {
        l0: S::sp_mul(p.l0, k),
        l1: S::sp_mul(p.l1, k),
        l2: S::sp_mul(p.l2, k),
        l3: S::sp_mul(p.l3, k),
    }
}

/// Every lane-wise product stays in range.
pub open spec fn lanes_mul_ok<S: Scalar>(p: Packed4<S>, q: Packed4<S>) -> bool {
    S::mul_ok(p.l0, q.l0) && S::mul_ok(p.l1, q.l1) && S::mul_ok(p.l2, q.l2) && S::mul_ok(
        p.l3,
        q.l3,
    )
}

/// Every lane-wise sum stays in range.
pub open spec fn lanes_add_ok<S: Scalar>(p: Packed4<S>, q: Packed4<S>) -> bool {
    S::add_ok(p.l0, q.l0) && S::add_ok(p.l1, q.l1) && S::add_ok(p.l2, q.l2) && S::add_ok(
        p.l3,
        q.l3,
    )
}

/// Every lane's product with the scalar stays in range.
pub open spec fn lanes_scale_ok<S: Scalar>(p: Packed4<S>, k: S) -> bool {
    S::mul_ok(p.l0, k) && S::mul_ok(p.l1, k) && S::mul_ok(p.l2, k) && S::mul_ok(p.l3, k)
}

impl<S: PackedLanes> Packed4<S> {
    /// Packs four scalars, lowest lane first.
    pub fn new(e0: S, e1: S, e2: S, e3: S) -> (r: Self)
        ensures
            r == (Packed4 { l0: e0, l1: e1, l2: e2, l3: e3 }),
            r.lanes() == seq![e0, e1, e2, e3],
    {
        Packed4 { l0: e0, l1: e1, l2: e2, l3: e3 }
    }

    /// Reads one lane back.
    pub fn extract(self, i: usize) -> (r: S)
        requires
            i < 4,
        ensures
            r == self.lanes()[i as int],
    {
        if i == 0 {
            self.l0
        } else if i == 1 {
            self.l1
        } else if i == 2 {
            self.l2
        } else {
            self.l3
        }
    }

    /// Lane-wise multiply, as one packed operation.
    pub fn mul_lanes(self, rhs: Self) -> (r: Self)
        requires
            lanes_mul_ok(self, rhs),
        ensures
            r == sp_mul_lanes(self, rhs),
    {
        Packed4 {
            l0: S::mul(self.l0, rhs.l0),
            l1: S::mul(self.l1, rhs.l1),
            l2: S::mul(self.l2, rhs.l2),
            l3: S::mul(self.l3, rhs.l3),
        }
    }

    /// Lane-wise add, as one packed operation.
    pub fn add_lanes(self, rhs: Self) -> (r: Self)
        requires
            lanes_add_ok(self, rhs),
        ensures
            r == sp_add_lanes(self, rhs),
    {
        Packed4 {
            l0: S::add(self.l0, rhs.l0),
            l1: S::add(self.l1, rhs.l1),
            l2: S::add(self.l2, rhs.l2),
            l3: S::add(self.l3, rhs.l3),
        }
    }

    /// Every lane multiplied by one scalar, as one packed operation.
    pub fn scale_lanes(self, k: S) -> (r: Self)
        requires
            lanes_scale_ok(self, k),
        ensures
            r == sp_scale_lanes(self, k),
    {
        Packed4 {
            l0: S::mul(self.l0, k),
            l1: S::mul(self.l1, k),
            l2: S::mul(self.l2, k),
            l3: S::mul(self.l3, k),
        }
    }
}

} // verus!
