//! Signed fixed-point scalars: an `i128` raw value scaled by 2^16.
//!
//! Every operation is total: results are saturated into
//! `[-MAX_RAW, MAX_RAW]`, division by zero yields zero, and the square
//! root of a negative number yields zero. Contracts state the exact raw
//! value of every result over mathematical integers.

use vstd::prelude::*;

verus! {

/// Number of raw units per 1.0: the fixed-point scale.
pub const SCALE: i128 = 65536;

/// Largest raw magnitude a scalar may carry; chosen so that the product
/// of two in-range raw values always fits in an `i128`.
pub const MAX_RAW: i128 = 0x4000_0000_0000_0000;

/// Absolute value of a mathematical integer.
pub open spec fn abs_i(x: int) -> int {
    if x < 0 { -x } else { x }
}

/// Truncating division (rounds toward zero), as Rust's `/` does on
/// signed integers; meaningful only for `d != 0`.
pub open spec fn tdiv(n: int, d: int) -> int
    recommends d != 0,
{
    if (n < 0) != (d < 0) {
        -(abs_i(n) / abs_i(d))
    } else {
        abs_i(n) / abs_i(d)
    }
}

/// Saturation of an integer into the representable raw range.
pub open spec fn sat(x: int) -> int {
    if x > MAX_RAW as int {
        MAX_RAW as int
    } else if x < -(MAX_RAW as int) {
        -(MAX_RAW as int)
    } else {
        x
    }
}

/// Raw value of a saturated fixed-point sum.
pub open spec fn add_raw(a: int, b: int) -> int {
    sat(a + b)
}

/// Raw value of a saturated fixed-point difference.
pub open spec fn sub_raw(a: int, b: int) -> int {
    sat(a - b)
}

/// Raw value of a saturated fixed-point negation.
pub open spec fn neg_raw(a: int) -> int {
    sat(-a)
}

/// Raw value of a saturated fixed-point product.
pub open spec fn mul_raw(a: int, b: int) -> int {
    sat(tdiv(a * b, SCALE as int))
}

/// Raw value of a saturated fixed-point quotient; zero when the divisor
/// is zero.
pub open spec fn div_raw(a: int, b: int) -> int {
    if b == 0 {
        0
    } else {
        sat(tdiv(a * (SCALE as int), b))
    }
}

/// `r` is the integer square root of `x` rounded down.
pub open spec fn is_sqrt_floor(x: int, r: int) -> bool {
    0 <= r && r * r <= x && x < (r + 1) * (r + 1)
}

/// The integer square root of `x` rounded down (meaningful for `x >= 0`).
pub open spec fn sqrt_floor(x: int) -> int {
    choose|r: int| is_sqrt_floor(x, r)
}

/// Raw value of a fixed-point square root; zero for non-positive input.
pub open spec fn sqrt_raw(a: int) -> int {
    if a <= 0 {
        0
    } else {
        sqrt_floor(a * (SCALE as int))
    }
}

/// The integer square root rounded down is unique.
pub proof fn lemma_sqrt_floor_unique(x: int, r1: int, r2: int)
    requires
        is_sqrt_floor(x, r1),
        is_sqrt_floor(x, r2),
    ensures
        r1 == r2,
{
    assert(r1 == r2) by (nonlinear_arith)
        requires
            is_sqrt_floor(x, r1),
            is_sqrt_floor(x, r2),
    ;
}

/// An integer square root rounded down exists for every non-negative
/// integer, so `sqrt_floor` satisfies its defining property there.
pub proof fn lemma_sqrt_floor_exists(x: int)
    requires
        x >= 0,
    ensures
        is_sqrt_floor(x, sqrt_floor(x)),
        sqrt_floor(x) >= 0,
    decreases x,
{
    if x == 0 {
        assert(is_sqrt_floor(0, 0));
    } else {
        lemma_sqrt_floor_exists(x - 1);
        let r = sqrt_floor(x - 1);
        if x < (r + 1) * (r + 1) {
            assert(is_sqrt_floor(x, r));
        } else {
            assert(x == (r + 1) * (r + 1));
            assert((r + 1) * (r + 1) < (r + 2) * (r + 2)) by (nonlinear_arith)
                requires r >= 0,
            ;
            assert(is_sqrt_floor(x, r + 1));
        }
    }
    lemma_sqrt_floor_unique(x, choose|r: int| is_sqrt_floor(x, r), sqrt_floor(x));
}

/// A fixed-point square root is never negative.
pub proof fn lemma_sqrt_raw_nonneg(a: int)
    ensures
        sqrt_raw(a) >= 0,
{
    if a > 0 {
        lemma_sqrt_floor_exists(a * (SCALE as int));
    }
}

/// Truncating division by a positive divisor is monotone in the
/// dividend.
pub proof fn lemma_tdiv_mono(n1: int, n2: int, d: int)
    requires
        n1 <= n2,
        d > 0,
    ensures
        tdiv(n1, d) <= tdiv(n2, d),
{
    if n1 >= 0 {
        vstd::arithmetic::div_mod::lemma_div_is_ordered(n1, n2, d);
    } else if n2 < 0 {
        vstd::arithmetic::div_mod::lemma_div_is_ordered(-n2, -n1, d);
    } else {
        vstd::arithmetic::div_mod::lemma_div_is_ordered(0, -n1, d);
        vstd::arithmetic::div_mod::lemma_div_is_ordered(0, n2, d);
        assert(0int / d == 0) by (nonlinear_arith)
            requires d > 0,
        ;
    }
}

/// Negating the divisor negates a truncated quotient.
pub proof fn lemma_tdiv_neg_divisor(n: int, d: int)
    requires
        d != 0,
    ensures
        tdiv(n, -d) == -tdiv(n, d),
{
}

/// Saturation commutes with negation (the range is symmetric).
pub proof fn lemma_sat_neg(x: int)
    ensures
        sat(-x) == -sat(x),
{
}

/// A fixed-point square is never negative.
pub proof fn lemma_mul_raw_sq_nonneg(x: int)
    ensures
        mul_raw(x, x) >= 0,
{
    assert(x * x >= 0) by (nonlinear_arith);
}

/// Negating both factors leaves a fixed-point product unchanged.
pub proof fn lemma_mul_raw_neg_neg(a: int, b: int)
    ensures
        mul_raw(-a, -b) == mul_raw(a, b),
{
    assert((-a) * (-b) == a * b) by (nonlinear_arith);
}

/// Negating the divisor negates a fixed-point quotient.
pub proof fn lemma_div_raw_neg_divisor(a: int, b: int)
    ensures
        div_raw(a, -b) == neg_raw(div_raw(a, b)),
{
    if b != 0 {
        lemma_tdiv_neg_divisor(a * (SCALE as int), b);
        lemma_sat_neg(tdiv(a * (SCALE as int), b));
    }
}

/// A fixed-point scalar: `raw` counts units of 1/65536.
#[derive(Clone, Copy, PartialEq, Eq, Structural, Debug)]
pub struct Fx {
    pub raw: i128,
}

impl View for Fx {
    type V = int;

    open spec fn view(&self) -> int {
        self.raw as int
    }
}

impl Fx {
    /// The raw value lies within the saturation range.
    pub open spec fn ok(self) -> bool {
        -(MAX_RAW as int) <= self.raw as int <= MAX_RAW as int
    }

    /// Zero.
    pub fn zero() -> (r: Fx)
        ensures
            r@ == 0,
            r.ok(),
    {
        Fx { raw: 0 }
    }

    /// One, i.e. one full scale unit.
    pub fn one() -> (r: Fx)
        ensures
            r@ == SCALE as int,
            r.ok(),
    {
        Fx { raw: SCALE }
    }

    /// The scalar with the given raw value, saturated into range.
    pub fn from_raw(raw: i64) -> (r: Fx)
        ensures
            r@ == sat(raw as int),
            r.ok(),
    {
        Fx { raw: sat_i128(raw as i128) }
    }

    /// The scalar representing the integer `i` exactly.
    pub fn from_int(i: i32) -> (r: Fx)
        ensures
            r@ == i * (SCALE as int),
            r.ok(),
    {
        Fx { raw: (i as i128) * SCALE }
    }

    /// The raw value, as an `i64` (the saturation range fits).
    pub fn raw_i64(self) -> (r: i64)
        requires
            self.ok(),
        ensures
            r as int == self@,
    {
        self.raw as i64
    }

    /// Saturating fixed-point addition.
    pub fn add(self, o: Fx) -> (r: Fx)
        requires
            self.ok(),
            o.ok(),
        ensures
            r@ == add_raw(self@, o@),
            r.ok(),
    {
        Fx { raw: sat_i128(self.raw + o.raw) }
    }

    /// Saturating fixed-point subtraction.
    pub fn sub(self, o: Fx) -> (r: Fx)
        requires
            self.ok(),
            o.ok(),
        ensures
            r@ == sub_raw(self@, o@),
            r.ok(),
    {
        Fx { raw: sat_i128(self.raw - o.raw) }
    }

    /// Saturating fixed-point negation.
    pub fn neg(self) -> (r: Fx)
        requires
            self.ok(),
        ensures
            r@ == neg_raw(self@),
            r.ok(),
    {
        Fx { raw: sat_i128(-self.raw) }
    }

    /// Saturating fixed-point multiplication.
    pub fn mul(self, o: Fx) -> (r: Fx)
        requires
            self.ok(),
            o.ok(),
        ensures
            r@ == mul_raw(self@, o@),
            r.ok(),
    {
        proof {
            assert((-(MAX_RAW as int) <= self.raw as int <= MAX_RAW as int
                && -(MAX_RAW as int) <= o.raw as int <= MAX_RAW as int)
                ==> -(MAX_RAW as int) * (MAX_RAW as int)
                    <= (self.raw as int) * (o.raw as int)
                    <= (MAX_RAW as int) * (MAX_RAW as int))
                by (nonlinear_arith);
        }
        let p: i128 = self.raw * o.raw;
        let q = tdiv_i128(p, SCALE);
        Fx { raw: sat_i128(q) }
    }

    /// Saturating fixed-point division; zero when the divisor is zero.
    pub fn div(self, o: Fx) -> (r: Fx)
        requires
            self.ok(),
            o.ok(),
        ensures
            r@ == div_raw(self@, o@),
            r.ok(),
    {
        if o.raw == 0 {
            Fx { raw: 0 }
        } else {
            let n: i128 = self.raw * SCALE;
            let q = tdiv_i128(n, o.raw);
            Fx { raw: sat_i128(q) }
        }
    }

    /// Fixed-point square root, rounded down; zero for non-positive input.
    pub fn sqrt(self) -> (r: Fx)
        requires
            self.ok(),
        ensures
            r@ == sqrt_raw(self@),
            r.ok(),
            r@ >= 0,
    {
        if self.raw <= 0 {
            Fx { raw: 0 }
        } else {
            let x: u128 = (self.raw as u128) * (SCALE as u128);
            let s = isqrt_u128(x);
            proof {
                lemma_sqrt_floor_unique(x as int, s as int, sqrt_floor(x as int));
                assert(is_sqrt_floor(x as int, s as int));
                assert((s as int) * (s as int) <= x as int);
                assert(x as int <= (MAX_RAW as int) * (SCALE as int));
                assert((s as int) <= MAX_RAW as int) by (nonlinear_arith)
                    requires
                        (s as int) * (s as int) <= x as int,
                        x as int <= (MAX_RAW as int) * (SCALE as int),
                        s as int >= 0,
                ;
            }
            Fx { raw: s as i128 }
        }
    }

    /// Comparison: `self <= o` on the represented values.
    pub fn le(self, o: Fx) -> (r: bool)
        ensures
            r == (self@ <= o@),
    {
        self.raw <= o.raw
    }

    /// Comparison: `self < o` on the represented values.
    pub fn lt(self, o: Fx) -> (r: bool)
        ensures
            r == (self@ < o@),
    {
        self.raw < o.raw
    }

    /// Whether the represented value is strictly positive.
    pub fn is_pos(self) -> (r: bool)
        ensures
            r == (self@ > 0),
    {
        self.raw > 0
    }
}

/// Saturate an `i128` into the representable raw range.
fn sat_i128(x: i128) -> (r: i128)
    ensures
        r as int == sat(x as int),
{
    if x > MAX_RAW {
        MAX_RAW
    } else if x < -MAX_RAW {
        -MAX_RAW
    } else {
        x
    }
}

/// Truncating division on `i128`, matching `tdiv`.
fn tdiv_i128(n: i128, d: i128) -> (q: i128)
    requires
        d != 0,
        n > i128::MIN,
        d > i128::MIN,
    ensures
        q as int == tdiv(n as int, d as int),
{
    let na: u128 = if n < 0 { (-n) as u128 } else { n as u128 };
    let da: u128 = if d < 0 { (-d) as u128 } else { d as u128 };
    let qa: u128 = na / da;
    assert(qa <= na);
    if (n < 0) != (d < 0) {
        -(qa as i128)
    } else {
        qa as i128
    }
}

/// Integer square root of a `u128`, rounded down.
fn isqrt_u128(x: u128) -> (r: u128)
    ensures
        is_sqrt_floor(x as int, r as int),
{
    let mut lo: u128 = 0;
    let mut hi: u128 = 0x1_0000_0000_0000_0000;
    proof {
        assert((hi as int) * (hi as int) > u128::MAX as int) by (nonlinear_arith)
            requires hi as int == 0x1_0000_0000_0000_0000,
        ;
    }
    while lo + 1 < hi
        invariant
            (lo as int) < (hi as int),
            hi as int <= 0x1_0000_0000_0000_0000,
            (lo as int) * (lo as int) <= x as int,
            (x as int) < (hi as int) * (hi as int),
        decreases hi as int - lo as int,
    {
        let mid: u128 = lo + (hi - lo) / 2;
        proof {
            assert((mid as int) * (mid as int) < u128::MAX as int) by (nonlinear_arith)
                requires 0 <= mid as int, (mid as int) < 0x1_0000_0000_0000_0000,
            ;
        }
        if mid * mid <= x {
            lo = mid;
        } else {
            hi = mid;
        }
    }
    proof {
        assert((lo as int + 1) * (lo as int + 1) >= (hi as int) * (hi as int))
            by (nonlinear_arith)
            requires lo as int + 1 >= hi as int, hi as int >= 1,
        ;
    }
    lo
}

} // verus!
