//! The resize target of the pipeline: the largest raster that fits inside a
//! square bounding box while keeping the source's aspect ratio.
//!
//! The longer source side is scaled exactly onto the box bound; the shorter
//! side is scaled by the same ratio, rounded to the nearest pixel and clamped
//! to at least one pixel. The target is computed here, in verified integer
//! arithmetic, and handed to the resampler as exact dimensions.

use vstd::arithmetic::div_mod::{lemma_fundamental_div_mod, lemma_mod_bound};
use vstd::prelude::*;

verus! {

/// `a` scaled by `m / d` and rounded to the nearest integer (halves round
/// up), clamped to at least one: the value of `(2*a*m + d) / (2*d)`, or `1`
/// where that quotient vanishes.
pub open spec fn round_scale(a: int, m: int, d: int) -> int
    recommends
        1 <= a,
        1 <= m,
        1 <= d,
{
    let q = (2 * a * m + d) / (2 * d);
    if q < 1 {
        1
    } else {
        q
    }
}

/// The dimensions of the resize target for a `w`-by-`h` source under the
/// square bound `m`: the longer side lands exactly on `m`, the shorter side
/// keeps the aspect ratio to within rounding. A degenerate input — a source
/// side or the bound at zero — gives the zero target, which the encoder
/// rejects downstream.
pub open spec fn spec_fit(w: int, h: int, m: int) -> (int, int) {
    if w < 1 || h < 1 || m < 1 {
        (0, 0)
    } else if h <= w {
        (m, round_scale(h, m, w))
    } else {
        (round_scale(w, m, h), m)
    }
}

/// Bounds and rounding accuracy of `round_scale` for `a <= d`: the result
/// lies in `1 ..= m`, and unless the exact scaling `a*m/d` falls below half a
/// pixel (where the clamp takes over) it differs from the exact value by at
/// most half a pixel either way.
proof fn lemma_round_scale_bounds(a: int, m: int, d: int)
    requires
        1 <= a <= d,
        1 <= m,
    ensures
        ({
            let q = round_scale(a, m, d);
            &&& 1 <= q <= m
            &&& (2 * a * m >= d ==> d * (2 * q - 1) <= 2 * a * m <= d * (2 * q + 1))
            &&& (2 * a * m < d ==> q == 1)
            &&& (a == d ==> q == m)
        }),
{
    let n = 2 * a * m + d;
    let dd = 2 * d;
    let k = n / dd;
    lemma_fundamental_div_mod(n, dd);
    lemma_mod_bound(n, dd);
    let r = n % dd;
    assert(n == dd * k + r);
    assert(0 <= r < dd);
    assert(k <= m) by (nonlinear_arith)
        requires
            n == dd * k + r,
            0 <= r,
            n == 2 * a * m + d,
            dd == 2 * d,
            1 <= a <= d,
            1 <= m,
    ;
    assert(k >= 0) by (nonlinear_arith)
        requires
            n == dd * k + r,
            r < dd,
            n == 2 * a * m + d,
            dd == 2 * d,
            1 <= a <= d,
            1 <= m,
    ;
    if 2 * a * m >= d {
        assert(k >= 1) by (nonlinear_arith)
            requires
                n == dd * k + r,
                r < dd,
                n == 2 * a * m + d,
                dd == 2 * d,
                2 * a * m >= d,
                1 <= d,
                k >= 0,
        ;
        assert(d * (2 * k - 1) <= 2 * a * m <= d * (2 * k + 1)) by (nonlinear_arith)
            requires
                n == dd * k + r,
                0 <= r < dd,
                n == 2 * a * m + d,
                dd == 2 * d,
                1 <= d,
        ;
    } else {
        assert(k == 0) by (nonlinear_arith)
            requires
                n == dd * k + r,
                0 <= r,
                n == 2 * a * m + d,
                dd == 2 * d,
                2 * a * m < d,
                1 <= d,
                0 <= k <= m,
        ;
    }
    if a == d {
        assert(k == m) by (nonlinear_arith)
            requires
                n == dd * k + r,
                0 <= r < dd,
                n == 2 * a * m + d,
                dd == 2 * d,
                a == d,
                1 <= d,
                1 <= m,
        ;
    }
}

/// Aspect-ratio preservation of the fit computation: for a source of at
/// least one pixel on each side and a positive bound `m`, the target fits
/// the `m`-by-`m` box, its longer side is exactly `m`, and the shorter side
/// matches the exact rescaling of the shorter source side to within half a
/// pixel — clamped to one pixel where the exact value would fall below a
/// half.
pub proof fn lemma_fit_preserves_aspect(w: int, h: int, m: int)
    requires
        1 <= w,
        1 <= h,
        1 <= m,
    ensures
        ({
            let (fw, fh) = spec_fit(w, h, m);
            &&& 1 <= fw <= m
            &&& 1 <= fh <= m
            &&& (h <= w ==> fw == m)
            &&& (w <= h ==> fh == m)
            &&& (h <= w && 2 * h * m >= w ==> w * (2 * fh - 1) <= 2 * h * m <= w * (2 * fh + 1))
            &&& (h <= w && 2 * h * m < w ==> fh == 1)
            &&& (w < h && 2 * w * m >= h ==> h * (2 * fw - 1) <= 2 * w * m <= h * (2 * fw + 1))
            &&& (w < h && 2 * w * m < h ==> fw == 1)
        }),
{
    if h <= w {
        lemma_round_scale_bounds(h, m, w);
    } else {
        lemma_round_scale_bounds(w, m, h);
    }
}

/// `round_scale` computed without overflow: the numerator and denominator fit
/// comfortably in 128 bits for any 32-bit inputs.
fn round_scale_exec(a: u32, m: u32, d: u32) -> (r: u32)
    requires
        1 <= a <= d,
        1 <= m,
    ensures
        r as int == round_scale(a as int, m as int, d as int),
        1 <= r <= m,
{
    proof {
        lemma_round_scale_bounds(a as int, m as int, d as int);
        assert(0 <= 2 * (a as int) * (m as int) < 0x40000000000000000) by (nonlinear_arith)
            requires
                0 <= (a as int) && (a as int) < 0x100000000,
                0 <= (m as int) && (m as int) < 0x100000000,
        ;
    }
    let num: u128 = 2 * (a as u128) * (m as u128) + (d as u128);
    let den: u128 = 2 * (d as u128);
    let q: u128 = num / den;
    proof {
        lemma_fundamental_div_mod(num as int, den as int);
        lemma_mod_bound(num as int, den as int);
        assert(q <= m as int) by (nonlinear_arith)
            requires
                num as int == den as int * (q as int) + (num as int % den as int),
                0 <= num as int % den as int,
                num as int == 2 * (a as int) * (m as int) + d as int,
                den as int == 2 * (d as int),
                1 <= a as int <= d as int,
                1 <= m as int,
                q as int >= 0,
        ;
    }
    if q < 1 {
        1
    } else {
        q as u32
    }
}

/// Compute the resize target for a `w`-by-`h` source under the square bound
/// `m`: the largest raster fitting an `m`-by-`m` box with the source's
/// aspect ratio kept to within rounding. Degenerate inputs give `(0, 0)`.
pub fn fit_dimensions(w: u32, h: u32, m: u32) -> (r: (u32, u32))
    ensures
        (r.0 as int, r.1 as int) == spec_fit(w as int, h as int, m as int),
{
    if w < 1 || h < 1 || m < 1 {
        (0, 0)
    } else if h <= w {
        let nh = round_scale_exec(h, m, w);
        (m, nh)
    } else {
        let nw = round_scale_exec(w, m, h);
        (nw, m)
    }
}

} // verus!
