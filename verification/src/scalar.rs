use vstd::prelude::*;

verus! {

/// The scalar capability that the default (component-wise) operation path
/// needs: a duplicable value with multiplication and addition, together with
/// the specification-level meaning of each operator, the inputs on which it
/// stays in range, and the two distinguished constants.
pub trait Scalar: Sized + Copy {
    /// What multiplication returns, at the specification level.
    spec fn sp_mul(a: Self, b: Self) -> Self;

    /// What addition returns, at the specification level.
    spec fn sp_add(a: Self, b: Self) -> Self;

    /// The pairs whose product stays in range.
    spec fn mul_ok(a: Self, b: Self) -> bool;

    /// The pairs whose sum stays in range.
    spec fn add_ok(a: Self, b: Self) -> bool;

    /// The multiplicative identity.
    spec fn sp_one() -> Self;

    /// The additive identity.
    spec fn sp_zero() -> Self;

    /// Multiplication.
    fn mul(a: Self, b: Self) -> (r: Self)
        requires
            Self::mul_ok(a, b),
        ensures
            r == Self::sp_mul(a, b),
    ;

    /// Addition.
    fn add(a: Self, b: Self) -> (r: Self)
        requires
            Self::add_ok(a, b),
        ensures
            r == Self::sp_add(a, b),
    ;

    /// Multiplying by one is the identity, and never leaves the range.
    proof fn lemma_mul_one(a: Self)
        ensures
            Self::mul_ok(a, Self::sp_one()),
            Self::sp_mul(a, Self::sp_one()) == a,
    ;

    /// Multiplying by zero gives zero, and never leaves the range.
    proof fn lemma_mul_zero(a: Self)
        ensures
            Self::mul_ok(a, Self::sp_zero()),
            Self::sp_mul(a, Self::sp_zero()) == Self::sp_zero(),
    ;
}

/// The lane-packing capability: a scalar type with this capability has a
/// packed four-lane representation, so the optimized operation path exists
/// for it. Its bound is a strict superset of what the default path asks
/// (`Scalar`), which is what keeps the two paths from ever being eligible
/// ambiguously at one call site: every type the optimized path accepts, the
/// default path accepts too, and the optimized path is the one reached under
/// the operation's public name.
pub trait PackedLanes: Scalar {
}

impl Scalar for u8 {
    open spec fn sp_mul(a: u8, b: u8) -> u8 {
        (a * b) as u8
    }

    open spec fn sp_add(a: u8, b: u8) -> u8 {
        (a + b) as u8
    }

    open spec fn mul_ok(a: u8, b: u8) -> bool {
        a * b <= u8::MAX
    }

    open spec fn add_ok(a: u8, b: u8) -> bool {
        a + b <= u8::MAX
    }

    open spec fn sp_one() -> u8 {
        1u8
    }

    open spec fn sp_zero() -> u8 {
        0u8
    }

    fn mul(a: u8, b: u8) -> (r: u8) {
        a * b
    }

    fn add(a: u8, b: u8) -> (r: u8) {
        a + b
    }

    proof fn lemma_mul_one(a: u8) {
    }

    proof fn lemma_mul_zero(a: u8) {
    }
}

impl Scalar for u16 {
    open spec fn sp_mul(a: u16, b: u16) -> u16 {
        (a * b) as u16
    }

    open spec fn sp_add(a: u16, b: u16) -> u16 {
        (a + b) as u16
    }

    open spec fn mul_ok(a: u16, b: u16) -> bool {
        a * b <= u16::MAX
    }

    open spec fn add_ok(a: u16, b: u16) -> bool {
        a + b <= u16::MAX
    }

    open spec fn sp_one() -> u16 {
        1u16
    }

    open spec fn sp_zero() -> u16 {
        0u16
    }

    fn mul(a: u16, b: u16) -> (r: u16) {
        a * b
    }

    fn add(a: u16, b: u16) -> (r: u16) {
        a + b
    }

    proof fn lemma_mul_one(a: u16) {
    }

    proof fn lemma_mul_zero(a: u16) {
    }
}

impl Scalar for u32 {
    open spec fn sp_mul(a: u32, b: u32) -> u32 {
        (a * b) as u32
    }

    open spec fn sp_add(a: u32, b: u32) -> u32 {
        (a + b) as u32
    }

    open spec fn mul_ok(a: u32, b: u32) -> bool {
        a * b <= u32::MAX
    }

    open spec fn add_ok(a: u32, b: u32) -> bool {
        a + b <= u32::MAX
    }

    open spec fn sp_one() -> u32 {
        1u32
    }

    open spec fn sp_zero() -> u32 {
        0u32
    }

    fn mul(a: u32, b: u32) -> (r: u32) {
        a * b
    }

    fn add(a: u32, b: u32) -> (r: u32) {
        a + b
    }

    proof fn lemma_mul_one(a: u32) {
    }

    proof fn lemma_mul_zero(a: u32) {
    }
}

impl Scalar for u64 {
    open spec fn sp_mul(a: u64, b: u64) -> u64 {
        (a * b) as u64
    }

    open spec fn sp_add(a: u64, b: u64) -> u64 {
        (a + b) as u64
    }

    open spec fn mul_ok(a: u64, b: u64) -> bool {
        a * b <= u64::MAX
    }

    open spec fn add_ok(a: u64, b: u64) -> bool {
        a + b <= u64::MAX
    }

    open spec fn sp_one() -> u64 {
        1u64
    }

    open spec fn sp_zero() -> u64 {
        0u64
    }

    fn mul(a: u64, b: u64) -> (r: u64) {
        a * b
    }

    fn add(a: u64, b: u64) -> (r: u64) {
        a + b
    }

    proof fn lemma_mul_one(a: u64) {
    }

    proof fn lemma_mul_zero(a: u64) {
    }
}

impl Scalar for u128 {
    open spec fn sp_mul(a: u128, b: u128) -> u128 {
        (a * b) as u128
    }

    open spec fn sp_add(a: u128, b: u128) -> u128 {
        (a + b) as u128
    }

    open spec fn mul_ok(a: u128, b: u128) -> bool {
        a * b <= u128::MAX
    }

    open spec fn add_ok(a: u128, b: u128) -> bool {
        a + b <= u128::MAX
    }

    open spec fn sp_one() -> u128 {
        1u128
    }

    open spec fn sp_zero() -> u128 {
        0u128
    }

    fn mul(a: u128, b: u128) -> (r: u128) {
        a * b
    }

    fn add(a: u128, b: u128) -> (r: u128) {
        a + b
    }

    proof fn lemma_mul_one(a: u128) {
    }

    proof fn lemma_mul_zero(a: u128) {
    }
}

impl Scalar for i8 {
    open spec fn sp_mul(a: i8, b: i8) -> i8 {
        (a * b) as i8
    }

    open spec fn sp_add(a: i8, b: i8) -> i8 {
        (a + b) as i8
    }

    open spec fn mul_ok(a: i8, b: i8) -> bool {
        i8::MIN <= a * b && a * b <= i8::MAX
    }

    open spec fn add_ok(a: i8, b: i8) -> bool {
        i8::MIN <= a + b && a + b <= i8::MAX
    }

    open spec fn sp_one() -> i8 {
        1i8
    }

    open spec fn sp_zero() -> i8 {
        0i8
    }

    fn mul(a: i8, b: i8) -> (r: i8) {
        a * b
    }

    fn add(a: i8, b: i8) -> (r: i8) {
        a + b
    }

    proof fn lemma_mul_one(a: i8) {
    }

    proof fn lemma_mul_zero(a: i8) {
    }
}

impl Scalar for i16 {
    open spec fn sp_mul(a: i16, b: i16) -> i16 {
        (a * b) as i16
    }

    open spec fn sp_add(a: i16, b: i16) -> i16 {
        (a + b) as i16
    }

    open spec fn mul_ok(a: i16, b: i16) -> bool {
        i16::MIN <= a * b && a * b <= i16::MAX
    }

    open spec fn add_ok(a: i16, b: i16) -> bool {
        i16::MIN <= a + b && a + b <= i16::MAX
    }

    open spec fn sp_one() -> i16 {
        1i16
    }

    open spec fn sp_zero() -> i16 {
        0i16
    }

    fn mul(a: i16, b: i16) -> (r: i16) {
        a * b
    }

    fn add(a: i16, b: i16) -> (r: i16) {
        a + b
    }

    proof fn lemma_mul_one(a: i16) {
    }

    proof fn lemma_mul_zero(a: i16) {
    }
}

impl Scalar for i32 {
    open spec fn sp_mul(a: i32, b: i32) -> i32 {
        (a * b) as i32
    }

    open spec fn sp_add(a: i32, b: i32) -> i32 {
        (a + b) as i32
    }

    open spec fn mul_ok(a: i32, b: i32) -> bool {
        i32::MIN <= a * b && a * b <= i32::MAX
    }

    open spec fn add_ok(a: i32, b: i32) -> bool {
        i32::MIN <= a + b && a + b <= i32::MAX
    }

    open spec fn sp_one() -> i32 {
        1i32
    }

    open spec fn sp_zero() -> i32 {
        0i32
    }

    fn mul(a: i32, b: i32) -> (r: i32) {
        a * b
    }

    fn add(a: i32, b: i32) -> (r: i32) {
        a + b
    }

    proof fn lemma_mul_one(a: i32) {
    }

    proof fn lemma_mul_zero(a: i32) {
    }
}

impl Scalar for i64 {
    open spec fn sp_mul(a: i64, b: i64) -> i64 {
        (a * b) as i64
    }

    open spec fn sp_add(a: i64, b: i64) -> i64 {
        (a + b) as i64
    }

    open spec fn mul_ok(a: i64, b: i64) -> bool {
        i64::MIN <= a * b && a * b <= i64::MAX
    }

    open spec fn add_ok(a: i64, b: i64) -> bool {
        i64::MIN <= a + b && a + b <= i64::MAX
    }

    open spec fn sp_one() -> i64 {
        1i64
    }

    open spec fn sp_zero() -> i64 {
        0i64
    }

    fn mul(a: i64, b: i64) -> (r: i64) {
        a * b
    }

    fn add(a: i64, b: i64) -> (r: i64) {
        a + b
    }

    proof fn lemma_mul_one(a: i64) {
    }

    proof fn lemma_mul_zero(a: i64) {
    }
}

impl Scalar for i128 {
    open spec fn sp_mul(a: i128, b: i128) -> i128 {
        (a * b) as i128
    }

    open spec fn sp_add(a: i128, b: i128) -> i128 {
        (a + b) as i128
    }

    open spec fn mul_ok(a: i128, b: i128) -> bool {
        i128::MIN <= a * b && a * b <= i128::MAX
    }

    open spec fn add_ok(a: i128, b: i128) -> bool {
        i128::MIN <= a + b && a + b <= i128::MAX
    }

    open spec fn sp_one() -> i128 {
        1i128
    }

    open spec fn sp_zero() -> i128 {
        0i128
    }

    fn mul(a: i128, b: i128) -> (r: i128) {
        a * b
    }

    fn add(a: i128, b: i128) -> (r: i128) {
        a + b
    }

    proof fn lemma_mul_one(a: i128) {
    }

    proof fn lemma_mul_zero(a: i128) {
    }
}

impl PackedLanes for u8 {
}

impl PackedLanes for u16 {
}

impl PackedLanes for u32 {
}

impl PackedLanes for u64 {
}

impl PackedLanes for u128 {
}

impl PackedLanes for i8 {
}

impl PackedLanes for i16 {
}

impl PackedLanes for i32 {
}

impl PackedLanes for i64 {
}

impl PackedLanes for i128 {
}

} // verus!
