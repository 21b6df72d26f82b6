use vec4_lanes::vector::Vector4;

#[test]
fn test_mul_element_wise_simd() {
    let vec_a: Vector4<i32> = Vector4::new(1, 2, 3, 4);
    let vec_b: Vector4<i32> = Vector4::new(2, 2, 2, 2);
    let r = vec_a.elementwise_multiply(vec_b);
    println!("{:?}", r);
    assert_eq!(r.x, 2);
    assert_eq!(r.y, 4);
    assert_eq!(r.z, 6);
    assert_eq!(r.w, 8);
}

#[test]
fn test_scalar_multiply_simd() {
    let vec_a: Vector4<i32> = Vector4::new(1, 2, 3, 4);
    let b: i32 = 10;
    let r = vec_a.scalar_multiply(b);
    println!("{:?}", r);
    assert_eq!(r.x, 10);
    assert_eq!(r.y, 20);
    assert_eq!(r.z, 30);
    assert_eq!(r.w, 40);
}

#[test]
fn test_mul_element_wise_default_matches_expected() {
    let vec_a: Vector4<i32> = Vector4::new(1, 2, 3, 4);
    let vec_b: Vector4<i32> = Vector4::new(2, 2, 2, 2);
    let r = vec_a.elementwise_multiply_default(vec_b);
    assert_eq!(r.x, 2);
    assert_eq!(r.y, 4);
    assert_eq!(r.z, 6);
    assert_eq!(r.w, 8);
}

#[test]
fn test_path_equivalence_mul_u8() {
    let a: Vector4<u8> = Vector4::new(3, 5, 7, 9);
    let b: Vector4<u8> = Vector4::new(2, 4, 6, 8);
    let opt = a.elementwise_multiply(b);
    let def = a.elementwise_multiply_default(b);
    assert_eq!(opt.x, def.x);
    assert_eq!(opt.y, def.y);
    assert_eq!(opt.z, def.z);
    assert_eq!(opt.w, def.w);
    assert_eq!(opt.x, 6);
    assert_eq!(opt.y, 20);
    assert_eq!(opt.z, 42);
    assert_eq!(opt.w, 72);
}

#[test]
fn test_path_equivalence_add_i16() {
    let a: Vector4<i16> = Vector4::new(-1, 2, -3, 4);
    let b: Vector4<i16> = Vector4::new(5, -6, 7, -8);
    let opt = a.add(b);
    let def = a.add_default(b);
    assert_eq!(opt.x, def.x);
    assert_eq!(opt.y, def.y);
    assert_eq!(opt.z, def.z);
    assert_eq!(opt.w, def.w);
    assert_eq!(opt.x, 4);
    assert_eq!(opt.y, -4);
    assert_eq!(opt.z, 4);
    assert_eq!(opt.w, -4);
}

#[test]
fn test_path_equivalence_scale_u64() {
    let v: Vector4<u64> = Vector4::new(1 << 40, 2, 3, 4);
    let k: u64 = 1000;
    let opt = v.scalar_multiply(k);
    let def = v.scalar_multiply_default(k);
    assert_eq!(opt.x, def.x);
    assert_eq!(opt.y, def.y);
    assert_eq!(opt.z, def.z);
    assert_eq!(opt.w, def.w);
    assert_eq!(opt.x, 1000 << 40);
    assert_eq!(opt.w, 4000);
}

#[test]
fn test_mul_identity_i64() {
    let v: Vector4<i64> = Vector4::new(i64::MIN, -5, 0, i64::MAX);
    let ones: Vector4<i64> = Vector4::new(1, 1, 1, 1);
    let r = v.elementwise_multiply(ones);
    assert_eq!(r.x, i64::MIN);
    assert_eq!(r.y, -5);
    assert_eq!(r.z, 0);
    assert_eq!(r.w, i64::MAX);
}

#[test]
fn test_scalar_multiply_zero_u32() {
    let v: Vector4<u32> = Vector4::new(9, u32::MAX, 0, 12345);
    let r = v.scalar_multiply(0);
    assert_eq!(r.x, 0);
    assert_eq!(r.y, 0);
    assert_eq!(r.z, 0);
    assert_eq!(r.w, 0);
}

#[test]
fn test_scalar_multiply_one_i8() {
    let v: Vector4<i8> = Vector4::new(-128, -1, 0, 127);
    let r = v.scalar_multiply(1);
    assert_eq!(r.x, -128);
    assert_eq!(r.y, -1);
    assert_eq!(r.z, 0);
    assert_eq!(r.w, 127);
}

#[test]
fn test_mul_element_wise_u128_extremes() {
    let a: Vector4<u128> = Vector4::new(u128::MAX, 1, u128::MAX / 2, 0);
    let b: Vector4<u128> = Vector4::new(1, u128::MAX, 2, u128::MAX);
    let r = a.elementwise_multiply(b);
    assert_eq!(r.x, u128::MAX);
    assert_eq!(r.y, u128::MAX);
    assert_eq!(r.z, u128::MAX - 1);
    assert_eq!(r.w, 0);
}

#[test]
fn test_add_u8_at_upper_bound() {
    let a: Vector4<u8> = Vector4::new(255, 0, 128, 1);
    let b: Vector4<u8> = Vector4::new(0, 255, 127, 254);
    let r = a.add(b);
    assert_eq!(r.x, 255);
    assert_eq!(r.y, 255);
    assert_eq!(r.z, 255);
    assert_eq!(r.w, 255);
}
