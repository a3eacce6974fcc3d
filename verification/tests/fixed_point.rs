//! Tests for the fixed-point scalar type.

use raytrace::fixed::Fx;
use raytrace::fixed::MAX_RAW;

#[test]
fn t_from_int_and_raw() {
    assert_eq!(Fx::from_int(1).raw, 65536);
    assert_eq!(Fx::from_int(-3).raw, -3 * 65536);
    assert_eq!(Fx::from_raw(12345).raw, 12345);
    assert_eq!(Fx::zero().raw, 0);
    assert_eq!(Fx::one().raw, 65536);
}

#[test]
fn t_from_raw_saturates() {
    assert_eq!(Fx::from_raw(i64::MAX).raw, MAX_RAW);
    assert_eq!(Fx::from_raw(i64::MIN).raw, -MAX_RAW);
}

#[test]
fn t_mul_exact() {
    let six = Fx::from_int(3).mul(Fx::from_int(2));
    assert_eq!(six.raw, 6 * 65536);
    let neg = Fx::from_int(-3).mul(Fx::from_int(2));
    assert_eq!(neg.raw, -6 * 65536);
}

#[test]
fn t_div_truncates_toward_zero() {
    // -3/65536 divided by 2: the real quotient is -1.5/65536, which
    // truncates to -1 raw unit (flooring would give -2).
    let q = Fx { raw: -3 }.div(Fx::from_int(2));
    assert_eq!(q.raw, -1);
    let p = Fx { raw: 3 }.div(Fx::from_int(2));
    assert_eq!(p.raw, 1);
}

#[test]
fn t_div_by_zero_is_zero() {
    assert_eq!(Fx::from_int(7).div(Fx::zero()).raw, 0);
}

#[test]
fn t_sqrt_values() {
    assert_eq!(Fx::from_int(4).sqrt().raw, 2 * 65536);
    assert_eq!(Fx::from_int(2).sqrt().raw, 92681);
    assert_eq!(Fx::from_int(-1).sqrt().raw, 0);
    assert_eq!(Fx::zero().sqrt().raw, 0);
}

#[test]
fn t_add_sub_neg() {
    let a = Fx::from_int(5);
    let b = Fx::from_int(2);
    assert_eq!(a.add(b).raw, 7 * 65536);
    assert_eq!(a.sub(b).raw, 3 * 65536);
    assert_eq!(a.neg().raw, -5 * 65536);
    assert_eq!(Fx { raw: MAX_RAW }.add(Fx::one()).raw, MAX_RAW);
}
