use vstd::prelude::*;

use crate::ops::add_ok4;
use crate::ops::mul_ok4;
use crate::ops::scale_ok4;
use crate::ops::sp_elementwise_add;
use crate::ops::sp_elementwise_mul;
use crate::ops::sp_from_packed;
use crate::ops::sp_ones;
use crate::ops::sp_scale;
use crate::ops::sp_to_packed;
use crate::ops::sp_zeros;
use crate::packed::Packed4;
use crate::packed::lanes_add_ok;
use crate::packed::lanes_mul_ok;
use crate::packed::lanes_scale_ok;
use crate::packed::sp_add_lanes;
use crate::packed::sp_mul_lanes;
use crate::packed::sp_scale_lanes;
use crate::scalar::PackedLanes;
use crate::scalar::Scalar;
use crate::vector::Vector4;

verus! {

/// Path equivalence for the elementwise product: for every scalar type with
/// the lane-packing capability and every pair of inputs, packing both
/// operands, multiplying lane-wise and unpacking gives exactly the
/// component-wise product that the default path computes, and the packed
/// route stays in range exactly when the default route does.
pub proof fn lemma_path_equivalence_mul<S: PackedLanes>(a: Vector4<S>, b: Vector4<S>)
    ensures
        sp_from_packed(sp_mul_lanes(sp_to_packed(a), sp_to_packed(b))) == sp_elementwise_mul(a, b),
        lanes_mul_ok(sp_to_packed(a), sp_to_packed(b)) == mul_ok4(a, b),
{
}

/// Path equivalence for the elementwise sum, in the same sense.
pub proof fn lemma_path_equivalence_add<S: PackedLanes>(a: Vector4<S>, b: Vector4<S>)
    ensures
        sp_from_packed(sp_add_lanes(sp_to_packed(a), sp_to_packed(b))) == sp_elementwise_add(a, b),
        lanes_add_ok(sp_to_packed(a), sp_to_packed(b)) == add_ok4(a, b),
{
}

/// Path equivalence for the scalar multiply, in the same sense.
pub proof fn lemma_path_equivalence_scale<S: PackedLanes>(v: Vector4<S>, k: S)
    ensures
        sp_from_packed(sp_scale_lanes(sp_to_packed(v), k)) == sp_scale(v, k),
        lanes_scale_ok(sp_to_packed(v), k) == scale_ok4(v, k),
{
}

/// Round trip: packing a vector and unpacking it again is the identity, for
/// every scalar type and every value — no component is changed, dropped or
/// reordered.
pub proof fn lemma_round_trip<S>(v: Vector4<S>)
    ensures
        sp_from_packed(sp_to_packed(v)) == v,
{
}

/// Round trip the other way: unpacking a packed value and packing the result
/// again is the identity.
pub proof fn lemma_round_trip_packed<S>(p: Packed4<S>)
    ensures
        sp_to_packed(sp_from_packed(p)) == p,
{
}

/// Component order: packing keeps the fixed order — lane 0 holds x, lane 1
/// holds y, lane 2 holds z, lane 3 holds w.
pub proof fn lemma_component_order<S>(v: Vector4<S>)
    ensures
        sp_to_packed(v).lanes() == seq![v.x, v.y, v.z, v.w],
        sp_to_packed(v).lanes()[0] == v.x,
        sp_to_packed(v).lanes()[1] == v.y,
        sp_to_packed(v).lanes()[2] == v.z,
        sp_to_packed(v).lanes()[3] == v.w,
{
}

/// Elementwise multiply by the all-ones vector returns the input unchanged,
/// and is in range for every input.
pub proof fn lemma_mul_identity<S: Scalar>(v: Vector4<S>)
    ensures
        mul_ok4(v, sp_ones::<S>()),
        sp_elementwise_mul(v, sp_ones::<S>()) == v,
{
    S::lemma_mul_one(v.x);
    S::lemma_mul_one(v.y);
    S::lemma_mul_one(v.z);
    S::lemma_mul_one(v.w);
}

/// Scalar multiply by zero gives the all-zero vector, and is in range for
/// every input.
pub proof fn lemma_scale_zero<S: Scalar>(v: Vector4<S>)
    ensures
        scale_ok4(v, S::sp_zero()),
        sp_scale(v, S::sp_zero()) == sp_zeros::<S>(),
{
    S::lemma_mul_zero(v.x);
    S::lemma_mul_zero(v.y);
    S::lemma_mul_zero(v.z);
    S::lemma_mul_zero(v.w);
}

/// Scalar multiply by one returns the input unchanged, and is in range for
/// every input.
pub proof fn lemma_scale_one<S: Scalar>(v: Vector4<S>)
    ensures
        scale_ok4(v, S::sp_one()),
        sp_scale(v, S::sp_one()) == v,
{
    S::lemma_mul_one(v.x);
    S::lemma_mul_one(v.y);
    S::lemma_mul_one(v.z);
    S::lemma_mul_one(v.w);
}

} // verus!
