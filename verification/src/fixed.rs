//! Fixed-point arithmetic in thousandths, total on every input.
//!
//! Sums and products are formed in the mathematical integers and then brought
//! back into a range, so no operation of the engine can overflow.
use vstd::prelude::*;

verus! {

/// One whole unit, in thousandths.
pub const SCALE: i64 = 1_000;

/// One hundred whole units (a full percentage scale), in thousandths.
pub const HUNDRED: i64 = 100_000;

/// Largest magnitude that an unbounded quantity (money, growth) may take.
pub const CEILING: i64 = 1_000_000_000_000_000;

/// Smallest value that an unbounded quantity may take.
pub const FLOOR: i64 = -1_000_000_000_000_000;

/// `x` brought into `[lo, hi]`.
pub open spec fn bounded(x: int, lo: i64, hi: i64) -> i64 {
    if x <= lo {
        lo
    } else if x >= hi {
        hi
    } else {
        x as i64
    }
}

/// `x` brought into `[FLOOR, CEILING]`.
pub open spec fn capped(x: int) -> i64 {
    bounded(x, FLOOR, CEILING)
}

/// Quotient rounded toward zero.
pub open spec fn trunc_div(n: int, d: int) -> int {
    if n >= 0 {
        n / d
    } else {
        -((-n) / d)
    }
}

/// `x * num / den`, rounded toward zero and capped.
pub open spec fn scaled(x: int, num: int, den: int) -> i64 {
    capped(trunc_div(x * num, den))
}

/// `x` grown by `pct` percent (in thousandths of a percent), rounded toward
/// zero and kept within `u32`.
pub open spec fn grown(x: u32, pct: int) -> u32 {
    let y = trunc_div(x * (HUNDRED + pct), HUNDRED as int);
    if y <= 0 {
        0
    } else if y >= u32::MAX {
        u32::MAX
    } else {
        y as u32
    }
}

/// `x` grown by `pct` percent (in thousandths of a percent) and rounded to
/// the nearest whole number, halves upward; nothing below zero, and kept
/// within `u32`.
pub open spec fn grown_to_nearest(x: u32, pct: int) -> u32 {
    let y = (x * (HUNDRED + pct) + HUNDRED / 2) / (HUNDRED as int);
    if x * (HUNDRED + pct) <= 0 {
        0
    } else if y >= u32::MAX {
        u32::MAX
    } else {
        y as u32
    }
}

/// `x + delta` whole units, where `delta` is in thousandths and its
/// fractional part is dropped after the addition; kept within `u32`.
pub open spec fn shifted(x: u32, delta: int) -> u32 {
    let y = trunc_div(x * SCALE + delta, SCALE as int);
    if y <= 0 {
        0
    } else if y >= u32::MAX {
        u32::MAX
    } else {
        y as u32
    }
}

/// `x * factor` (factor in thousandths), rounded toward zero and kept within
/// `u32`.
pub open spec fn stretched(x: u32, factor: int) -> u32 {
    let y = trunc_div(x * factor, SCALE as int);
    if y <= 0 {
        0
    } else if y >= u32::MAX {
        u32::MAX
    } else {
        y as u32
    }
}

/// A fractional head count (in thousandths) rounded to the nearest whole
/// number, halves upward; nothing below zero, and kept within `u32`.
pub open spec fn whole(milli: int) -> u32 {
    if milli <= 0 {
        0
    } else if (milli + 500) / 1_000 >= u32::MAX {
        u32::MAX
    } else {
        ((milli + 500) / 1_000) as u32
    }
}

pub proof fn lemma_product_fits(a: int, b: int)
    requires
        -0x8000_0000_0000_0000 <= a <= 0x8000_0000_0000_0000,
        -0x8000_0000_0000_0000 <= b <= 0x8000_0000_0000_0000,
    ensures
        -0x4000_0000_0000_0000_0000_0000_0000_0000 <= a * b
            <= 0x4000_0000_0000_0000_0000_0000_0000_0000,
{
    assert(-0x4000_0000_0000_0000_0000_0000_0000_0000 <= a * b
        <= 0x4000_0000_0000_0000_0000_0000_0000_0000) by (nonlinear_arith)
        requires
            -0x8000_0000_0000_0000 <= a <= 0x8000_0000_0000_0000,
            -0x8000_0000_0000_0000 <= b <= 0x8000_0000_0000_0000,
    ;
}

/// Brings a wide intermediate value into `[lo, hi]`.
pub fn bound(x: i128, lo: i64, hi: i64) -> (r: i64)
    requires
        lo <= hi,
    ensures
        r == bounded(x as int, lo, hi),
        lo <= r <= hi,
{
    if x <= lo as i128 {
        lo
    } else if x >= hi as i128 {
        hi
    } else {
        x as i64
    }
}

/// Brings a value into `[lo, hi]`.
pub fn clamp(x: i64, lo: i64, hi: i64) -> (r: i64)
    requires
        lo <= hi,
    ensures
        r == bounded(x as int, lo, hi),
        lo <= r <= hi,
{
    bound(x as i128, lo, hi)
}

/// Capped sum.
pub fn sum(a: i64, b: i64) -> (r: i64)
    ensures
        r == capped(a + b),
        FLOOR <= r <= CEILING,
{
    bound(a as i128 + b as i128, FLOOR, CEILING)
}

/// Capped difference.
pub fn diff(a: i64, b: i64) -> (r: i64)
    ensures
        r == capped(a - b),
        FLOOR <= r <= CEILING,
{
    bound(a as i128 - b as i128, FLOOR, CEILING)
}

/// Capped `x * num / den`, rounded toward zero.
pub fn scale(x: i64, num: i64, den: i64) -> (r: i64)
    requires
        den > 0,
    ensures
        r == scaled(x as int, num as int, den as int),
        FLOOR <= r <= CEILING,
{
    proof {
        lemma_product_fits(x as int, num as int);
    }
    let product: i128 = (x as i128) * (num as i128);
    bound(product / (den as i128), FLOOR, CEILING)
}

/// A head count grown by a percentage.
pub fn grow(x: u32, pct: i64) -> (r: u32)
    ensures
        r == grown(x, pct as int),
{
    let factor: i128 = HUNDRED as i128 + pct as i128;
    assert(-0x1_0000_0000_0000_0000_0000_0000 <= x * factor <= 0x1_0000_0000_0000_0000_0000_0000)
        by (nonlinear_arith)
        requires
            0 <= x <= 0xffff_ffff,
            -0x1_0000_0000_0000_0000 <= factor <= 0x1_0000_0000_0000_0000,
    ;
    let y: i128 = (x as i128) * factor / (HUNDRED as i128);
    if y <= 0 {
        0
    } else if y >= u32::MAX as i128 {
        u32::MAX
    } else {
        y as u32
    }
}

/// A head count grown by a percentage and rounded to the nearest whole
/// number.
pub fn grow_to_nearest(x: u32, pct: i64) -> (r: u32)
    ensures
        r == grown_to_nearest(x, pct as int),
{
    let factor: i128 = HUNDRED as i128 + pct as i128;
    assert(-0x1_0000_0000_0000_0000_0000_0000 <= x * factor <= 0x1_0000_0000_0000_0000_0000_0000)
        by (nonlinear_arith)
        requires
            0 <= x <= 0xffff_ffff,
            -0x1_0000_0000_0000_0000 <= factor <= 0x1_0000_0000_0000_0000,
    ;
    let product: i128 = (x as i128) * factor;
    if product <= 0 {
        0
    } else {
        let y: i128 = (product + 50_000) / (HUNDRED as i128);
        if y >= u32::MAX as i128 {
            u32::MAX
        } else {
            y as u32
        }
    }
}

/// A head count multiplied by a factor.
pub fn stretch(x: u32, factor: i64) -> (r: u32)
    ensures
        r == stretched(x, factor as int),
{
    proof {
        lemma_product_fits(x as int, factor as int);
    }
    let y: i128 = (x as i128) * (factor as i128) / (SCALE as i128);
    if y <= 0 {
        0
    } else if y >= u32::MAX as i128 {
        u32::MAX
    } else {
        y as u32
    }
}

/// A fractional head count rounded to the nearest whole number.
pub fn round_whole(milli: i128) -> (r: u32)
    ensures
        r == whole(milli as int),
{
    if milli <= 0 {
        0
    } else if milli >= 4_294_967_295_000 {
        u32::MAX
    } else {
        let y: i128 = (milli + 500) / 1_000;
        if y >= u32::MAX as i128 {
            u32::MAX
        } else {
            y as u32
        }
    }
}

/// A head count moved by a fractional amount.
pub fn shift(x: u32, delta: i64) -> (r: u32)
    ensures
        r == shifted(x, delta as int),
{
    let whole: i128 = (x as i128) * 1_000;
    let y: i128 = (whole + delta as i128) / (SCALE as i128);
    if y <= 0 {
        0
    } else if y >= u32::MAX as i128 {
        u32::MAX
    } else {
        y as u32
    }
}

} // verus!
