//! Integer arithmetic for quantities kept in fixed-point units.

use vstd::prelude::*;

verus! {

/// The nearest value of the coordinate type.
pub open spec fn clamp_coordinate(x: int) -> i32 {
    if x < i32::MIN {
        i32::MIN
    } else if x > i32::MAX {
        i32::MAX
    } else {
        x as i32
    }
}

/// The quotient of `a` by a positive `b`, rounded towards zero.
pub open spec fn quotient_toward_zero(a: int, b: int) -> int
    recommends
        b > 0,
{
    if a >= 0 {
        a / b
    } else {
        -((-a) / b)
    }
}

/// Whether `r` is the integer part of the square root of `n`.
pub open spec fn is_floor_sqrt(n: int, r: int) -> bool {
    0 <= r && r * r <= n < (r + 1) * (r + 1)
}

/// The integer part of the square root of a natural number.
pub open spec fn floor_sqrt(n: int) -> int
    recommends
        n >= 0,
{
    choose|r: int| is_floor_sqrt(n, r)
}

proof fn lemma_square_is_monotone(a: int, b: int)
    by (nonlinear_arith)
    requires
        0 <= a <= b,
    ensures
        a * a <= b * b,
{
}

/// Every natural number has an integer square root.
pub proof fn floor_sqrt_exists(n: int)
    requires
        n >= 0,
    ensures
        is_floor_sqrt(n, floor_sqrt(n)),
    decreases n,
{
    if n == 0 {
        assert(is_floor_sqrt(0, 0));
    } else {
        floor_sqrt_exists(n - 1);
        let r = floor_sqrt(n - 1);
        if (r + 1) * (r + 1) <= n {
            assert((r + 2) * (r + 2) > (r + 1) * (r + 1)) by (nonlinear_arith)
                requires
                    r >= 0,
            ;
            assert(is_floor_sqrt(n, r + 1));
        } else {
            assert(is_floor_sqrt(n, r));
        }
    }
}

/// A number has at most one integer square root.
pub proof fn floor_sqrt_is_unique(n: int, r: int)
    requires
        is_floor_sqrt(n, r),
    ensures
        floor_sqrt(n) == r,
{
    let chosen = floor_sqrt(n);
    if chosen < r {
        lemma_square_is_monotone(chosen + 1, r);
    } else if r < chosen {
        lemma_square_is_monotone(r + 1, chosen);
    }
}

/// Clamps a wide integer to the coordinate type.
pub fn clamp_to_coordinate(x: i128) -> (r: i32)
    ensures
        r == clamp_coordinate(x as int),
{
    if x < i32::MIN as i128 {
        i32::MIN
    } else if x > i32::MAX as i128 {
        i32::MAX
    } else {
        x as i32
    }
}

/// `value * numerator / denominator`, rounded towards zero.
pub fn scale(value: i64, numerator: u64, denominator: u64) -> (r: i128)
    requires
        denominator > 0,
    ensures
        r == quotient_toward_zero(value * numerator, denominator as int),
{
    let magnitude: u128 = if value >= 0 {
        value as u128
    } else {
        (-(value as i128)) as u128
    };
    assert(0 <= magnitude * numerator <= 0x8000_0000_0000_0000 * 0xffff_ffff_ffff_ffff)
        by (nonlinear_arith)
        requires
            0 <= magnitude <= 0x8000_0000_0000_0000,
            0 <= numerator <= 0xffff_ffff_ffff_ffff,
    ;
    let product: u128 = magnitude * (numerator as u128);
    let quotient: u128 = product / (denominator as u128);
    assert(quotient <= product) by (nonlinear_arith)
        requires
            quotient == (product as int) / (denominator as int),
            denominator > 0,
            product >= 0,
    ;
    assert(value * numerator == if value >= 0 {
        product as int
    } else {
        -(product as int)
    }) by (nonlinear_arith)
        requires
            product == magnitude * numerator,
            magnitude == if value >= 0 {
                value as int
            } else {
                -(value as int)
            },
    ;
    assert(value < 0 && product == 0 ==> quotient == 0);
    if value >= 0 {
        quotient as i128
    } else {
        -(quotient as i128)
    }
}

/// The integer part of the square root of `n`.
pub fn integer_sqrt(n: u128) -> (r: u64)
    ensures
        r == floor_sqrt(n as int),
        is_floor_sqrt(n as int, r as int),
{
    let mut low: u128 = 0;
    let mut high: u128 = 0x1_0000_0000_0000_0000;
    while high - low > 1
        invariant
            low < high <= 0x1_0000_0000_0000_0000,
            low * low <= n < high * high,
        decreases high - low,
    {
        let middle: u128 = low + (high - low) / 2;
        assert(middle * middle <= 0xffff_ffff_ffff_ffff * 0xffff_ffff_ffff_ffff)
            by (nonlinear_arith)
            requires
                0 <= middle <= 0xffff_ffff_ffff_ffff,
        ;
        if middle * middle <= n {
            low = middle;
        } else {
            high = middle;
        }
    }
    proof {
        floor_sqrt_is_unique(n as int, low as int);
    }
    low as u64
}

} // verus!
