//! Fixed-point arithmetic shared by the movement systems. Positions are
//! millipixels, durations milliseconds, speeds millipixels per second and
//! direction components thousandths, so scaling a product back down by a
//! power of a thousand appears in every integration step.
use vstd::prelude::*;

verus! {

/// Division that rounds toward zero.
pub open spec fn div_trunc(a: int, b: int) -> int
    recommends
        b > 0,
{
    if a >= 0 {
        a / b
    } else {
        -((-a) / b)
    }
}

/// `v` held inside `[lo, hi]`.
pub open spec fn spec_clamp(v: int, lo: int, hi: int) -> int
    recommends
        lo <= hi,
{
    if v < lo {
        lo
    } else if v > hi {
        hi
    } else {
        v
    }
}

/// `a * b / den`, rounding toward zero.
pub fn mul_div_trunc(a: i64, b: i64, den: i64) -> (r: i64)
    requires
        den > 0,
        -i64::MAX <= a * b <= i64::MAX,
    ensures
        r == div_trunc(a * b, den as int),
{
    let p: i64 = a * b;
    if p >= 0 {
        ((p as u64) / (den as u64)) as i64
    } else {
        let q: u64 = ((-p) as u64) / (den as u64);
        -(q as i64)
    }
}

pub fn clamp_i64(v: i64, lo: i64, hi: i64) -> (r: i64)
    requires
        lo <= hi,
    ensures
        r == spec_clamp(v as int, lo as int, hi as int),
{
    if v < lo {
        lo
    } else if v > hi {
        hi
    } else {
        v
    }
}

} // verus!
