//! Saturating fixed-point arithmetic on micro-unit `i64` scalars.
//!
//! Every operation is total: instead of wrapping or trapping, results out
//! of `i64` range stick to the nearest bound, and a division by zero yields
//! the signed bound (the role an infinity plays for the host's reals).

use vstd::prelude::*;

verus! {

/// `x` forced into `i64` range.
pub open spec fn spec_sat(x: int) -> int {
    if x > i64::MAX {
        i64::MAX as int
    } else if x < i64::MIN {
        i64::MIN as int
    } else {
        x
    }
}

/// Saturating addition.
pub fn sat_add(a: i64, b: i64) -> (r: i64)
    ensures
        r == spec_sat(a + b),
{
    let wide: i128 = a as i128 + b as i128;
    if wide > i64::MAX as i128 {
        i64::MAX
    } else if wide < i64::MIN as i128 {
        i64::MIN
    } else {
        wide as i64
    }
}

/// `x / d` rounded toward zero, the way machine division rounds; `d` must
/// not be zero.
pub open spec fn spec_tdiv(x: int, d: int) -> int {
    if x == 0 {
        0
    } else if x > 0 && d > 0 {
        x / d
    } else if x < 0 && d < 0 {
        (x * -1) / (d * -1)
    } else if x < 0 {
        ((x * -1) / d) * -1
    } else {
        (x / (d * -1)) * -1
    }
}

/// `x` forced into `i32` range.
pub open spec fn spec_sat32(x: int) -> int {
    if x > i32::MAX {
        i32::MAX as int
    } else if x < i32::MIN {
        i32::MIN as int
    } else {
        x
    }
}

pub fn sat32(x: i64) -> (r: i32)
    ensures
        r == spec_sat32(x as int),
{
    if x > i32::MAX as i64 {
        i32::MAX
    } else if x < i32::MIN as i64 {
        i32::MIN
    } else {
        x as i32
    }
}

/// The whole-unit part of a micro-unit value, truncated toward zero.
pub fn fx_to_int(v: i64) -> (r: i64)
    ensures
        r == spec_tdiv(v as int, 1_000_000),
{
    v / 1_000_000
}

/// Saturating subtraction.
pub fn sat_sub(a: i64, b: i64) -> (r: i64)
    ensures
        r == spec_sat(a - b),
{
    let wide: i128 = a as i128 - b as i128;
    if wide > i64::MAX as i128 {
        i64::MAX
    } else if wide < i64::MIN as i128 {
        i64::MIN
    } else {
        wide as i64
    }
}

/// The fixed-point product `a * b / 1_000_000`, truncated toward zero and
/// saturated.
pub open spec fn spec_fx_mul(a: i64, b: i64) -> int {
    spec_sat(spec_tdiv(a * b, 1_000_000))
}

pub fn fx_mul(a: i64, b: i64) -> (r: i64)
    ensures
        r == spec_fx_mul(a, b),
{
    proof {
        lemma_i64_product_fits(a as int, b as int);
    }
    let wide: i128 = a as i128 * b as i128 / 1_000_000;
    if wide > i64::MAX as i128 {
        i64::MAX
    } else if wide < i64::MIN as i128 {
        i64::MIN
    } else {
        wide as i64
    }
}

/// The fixed-point quotient `a * 1_000_000 / b`, truncated toward zero and
/// saturated; a zero divisor yields the signed bound.
pub open spec fn spec_fx_div(a: i64, b: i64) -> int {
    if b == 0 {
        if a > 0 {
            i64::MAX as int
        } else if a < 0 {
            i64::MIN as int
        } else {
            0
        }
    } else {
        spec_sat(spec_tdiv(a as int * 1_000_000, b as int))
    }
}

pub fn fx_div(a: i64, b: i64) -> (r: i64)
    ensures
        r == spec_fx_div(a, b),
{
    if b == 0 {
        if a > 0 {
            i64::MAX
        } else if a < 0 {
            i64::MIN
        } else {
            0
        }
    } else if a == 0 {
        0
    } else {
        let negative = (a < 0) != (b < 0);
        let ma: u128 = if a < 0 {
            (-(a as i128)) as u128
        } else {
            a as u128
        };
        let mb: u128 = if b < 0 {
            (-(b as i128)) as u128
        } else {
            b as u128
        };
        let q: u128 = ma * 1_000_000 / mb;
        proof {
            assert(ma as int * 1_000_000 == (if a < 0 {
                (a as int * 1_000_000) * -1
            } else {
                a as int * 1_000_000
            }));
            assert(a < 0 ==> a as int * 1_000_000 < 0);
            assert(a > 0 ==> a as int * 1_000_000 > 0);
        }
        if negative {
            if q >= 9_223_372_036_854_775_808u128 {
                i64::MIN
            } else {
                -(q as i64)
            }
        } else {
            if q > i64::MAX as u128 {
                i64::MAX
            } else {
                q as i64
            }
        }
    }
}

/// The product of two `i64` values fits in `i128`.
proof fn lemma_i64_product_fits(a: int, b: int)
    requires
        i64::MIN <= a <= i64::MAX,
        i64::MIN <= b <= i64::MAX,
    ensures
        i128::MIN <= a * b <= i128::MAX,
{
    assert(i128::MIN <= a * b <= i128::MAX) by (nonlinear_arith)
        requires
            -0x8000_0000_0000_0000 <= a <= 0x7fff_ffff_ffff_ffff,
            -0x8000_0000_0000_0000 <= b <= 0x7fff_ffff_ffff_ffff,
    ;
}

/// Division by a nonzero divisor cannot grow a magnitude well inside
/// `i128` range out of it.
proof fn lemma_i128_div_shrinks(a: int, b: int)
    requires
        -0x8000_0000_0000_0000 * 1_000_000 <= a <= 0x7fff_ffff_ffff_ffff * 1_000_000,
        b != 0,
        i64::MIN <= b <= i64::MAX,
    ensures
        i128::MIN <= a / b <= i128::MAX,
{
    assert(i128::MIN <= a / b <= i128::MAX) by (nonlinear_arith)
        requires
            -0x8000_0000_0000_0000 * 1_000_000 <= a <= 0x7fff_ffff_ffff_ffff * 1_000_000,
            b != 0,
    ;
}

} // verus!
