use vstd::prelude::*;

use crate::packed::Packed4;
use crate::scalar::PackedLanes;
use crate::scalar::Scalar;
use crate::vector::Vector4;

verus! {

/// Component-wise product of two vectors.
pub open spec fn sp_elementwise_mul<S: Scalar>(a: Vector4<S>, b: Vector4<S>) -> Vector4<S> {
    Vector4 {
        x: S::sp_mul(a.x, b.x),
        y: S::sp_mul(a.y, b.y),
        z: S::sp_mul(a.z, b.z),
        w: S::sp_mul(a.w, b.w),
    }
}

/// Component-wise sum of two vectors.
pub open spec fn sp_elementwise_add<S: Scalar>(a: Vector4<S>, b: Vector4<S>) -> Vector4<S> {
    Vector4 {
        x: S::sp_add(a.x, b.x),
        y: S::sp_add(a.y, b.y),
        z: S::sp_add(a.z, b.z),
        w: S::sp_add(a.w, b.w),
    }
}

/// Every component multiplied by one scalar.
pub open spec fn sp_scale<S: Scalar>(v: Vector4<S>, k: S) -> Vector4<S> {
    Vector4 {
        x: S::sp_mul(v.x, k),
        y: S::sp_mul(v.y, k),
        z: S::sp_mul(v.z, k),
        w: S::sp_mul(v.w, k),
    }
}

/// Every component-wise product stays in range.
pub open spec fn mul_ok4<S: Scalar>(a: Vector4<S>, b: Vector4<S>) -> bool {
    S::mul_ok(a.x, b.x) && S::mul_ok(a.y, b.y) && S::mul_ok(a.z, b.z) && S::mul_ok(a.w, b.w)
}

/// Every component-wise sum stays in range.
pub open spec fn add_ok4<S: Scalar>(a: Vector4<S>, b: Vector4<S>) -> bool {
    S::add_ok(a.x, b.x) && S::add_ok(a.y, b.y) && S::add_ok(a.z, b.z) && S::add_ok(a.w, b.w)
}

/// Every component's product with the scalar stays in range.
pub open spec fn scale_ok4<S: Scalar>(v: Vector4<S>, k: S) -> bool {
    S::mul_ok(v.x, k) && S::mul_ok(v.y, k) && S::mul_ok(v.z, k) && S::mul_ok(v.w, k)
}

/// The packed form of a vector: component i in lane i.
pub open spec fn sp_to_packed<S>(v: Vector4<S>) -> Packed4<S> {
    Packed4 { l0: v.x, l1: v.y, l2: v.z, l3: v.w }
}

/// The vector a packed value stands for: lane i in component i.
pub open spec fn sp_from_packed<S>(p: Packed4<S>) -> Vector4<S> {
    Vector4 { x: p.l0, y: p.l1, z: p.l2, w: p.l3 }
}

/// The all-ones vector.
pub open spec fn sp_ones<S: Scalar>() -> Vector4<S> {
    Vector4 { x: S::sp_one(), y: S::sp_one(), z: S::sp_one(), w: S::sp_one() }
}

/// The all-zero vector.
pub open spec fn sp_zeros<S: Scalar>() -> Vector4<S> {
    Vector4 { x: S::sp_zero(), y: S::sp_zero(), z: S::sp_zero(), w: S::sp_zero() }
}

impl<S: Scalar> Vector4<S> {
    /// The default path for the elementwise product: a component-wise loop
    /// over the four scalars. It exists for every scalar type whose
    /// multiplication is defined, packed lanes or not.
    pub fn elementwise_multiply_default(self, rhs: Self) -> (r: Self)
        requires
            mul_ok4(self, rhs),
        ensures
            r == sp_elementwise_mul(self, rhs),
    {
        Vector4::new(
            S::mul(self.x, rhs.x),
            S::mul(self.y, rhs.y),
            S::mul(self.z, rhs.z),
            S::mul(self.w, rhs.w),
        )
    }

    /// The default path for the elementwise sum.
    pub fn add_default(self, rhs: Self) -> (r: Self)
        requires
            add_ok4(self, rhs),
        ensures
            r == sp_elementwise_add(self, rhs),
    {
        Vector4::new(
            S::add(self.x, rhs.x),
            S::add(self.y, rhs.y),
            S::add(self.z, rhs.z),
            S::add(self.w, rhs.w),
        )
    }

    /// The default path for multiplying every component by one scalar.
    pub fn scalar_multiply_default(self, k: S) -> (r: Self)
        requires
            scale_ok4(self, k),
        ensures
            r == sp_scale(self, k),
    {
        Vector4::new(S::mul(self.x, k), S::mul(self.y, k), S::mul(self.z, k), S::mul(self.w, k))
    }
}

impl<S: PackedLanes> Vector4<S> {
    /// Packs the vector: component i goes to lane i, no value is changed.
    pub fn to_packed(self) -> (r: Packed4<S>)
        ensures
            r == sp_to_packed(self),
    {
        Packed4::new(self.x, self.y, self.z, self.w)
    }

    /// Unpacks a packed value: lane i goes to component i, no value is
    /// changed.
    pub fn from_packed(p: Packed4<S>) -> (r: Self)
        ensures
            r == sp_from_packed(p),
    {
        Vector4::new(p.extract(0), p.extract(1), p.extract(2), p.extract(3))
    }

    /// The optimized path for the elementwise product: both operands are
    /// packed, multiplied as one lane-wise operation, and the result is
    /// unpacked. Its contract is the same as the default path's, so the two
    /// paths agree on every input.
    pub fn elementwise_multiply(self, rhs: Self) -> (r: Self)
        requires
            mul_ok4(self, rhs),
        ensures
            r == sp_elementwise_mul(self, rhs),
    {
        let lhs = self.to_packed();
        let rhsp = rhs.to_packed();
        Vector4::from_packed(lhs.mul_lanes(rhsp))
    }

    /// The optimized path for the elementwise sum, through the packed form.
    pub fn add(self, rhs: Self) -> (r: Self)
        requires
            add_ok4(self, rhs),
        ensures
            r == sp_elementwise_add(self, rhs),
    {
        let lhs = self.to_packed();
        let rhsp = rhs.to_packed();
        Vector4::from_packed(lhs.add_lanes(rhsp))
    }

    /// The optimized path for multiplying every component by one scalar,
    /// through the packed form.
    pub fn scalar_multiply(self, k: S) -> (r: Self)
        requires
            scale_ok4(self, k),
        ensures
            r == sp_scale(self, k),
    {
        let lhs = self.to_packed();
        Vector4::from_packed(lhs.scale_lanes(k))
    }
}

} // verus!
