//! Ratio arithmetic: greatest common divisor and the largest exact-ratio
//! crop size that fits inside a given resolution.

use crate::geometry::Ratio;
use crate::geometry::Resolution;
use vstd::arithmetic::div_mod::lemma_breakdown;
use vstd::arithmetic::div_mod::lemma_div_multiples_vanish;
use vstd::arithmetic::div_mod::lemma_div_pos_is_pos;
use vstd::arithmetic::div_mod::lemma_fundamental_div_mod;
use vstd::arithmetic::div_mod::lemma_mod_division_less_than_divisor;
use vstd::arithmetic::div_mod::lemma_mod_multiples_vanish;
use vstd::arithmetic::div_mod::lemma_mod_self_0;
use vstd::arithmetic::div_mod::lemma_small_mod;
use vstd::arithmetic::mul::lemma_mul_inequality;
use vstd::arithmetic::mul::lemma_mul_is_associative;
use vstd::arithmetic::mul::lemma_mul_is_commutative;
use vstd::arithmetic::mul::lemma_mul_is_distributive_add_other_way;
use vstd::arithmetic::mul::lemma_mul_strictly_positive;
use vstd::prelude::*;

verus! {

/// `d` divides `n` exactly.
pub open spec fn divides(d: int, n: int) -> bool {
    n % d == 0
}

/// Greatest common divisor of two positive integers by Euclid's algorithm:
/// the pair is ordered so the smaller value is the divisor, and the divisor
/// answers once the remainder vanishes.
pub open spec fn spec_gcd(a: int, b: int) -> int
    recommends
        a > 0,
        b > 0,
    decreases a + b,
{
    let lo = if a <= b {
        a
    } else {
        b
    };
    let hi = if a <= b {
        b
    } else {
        a
    };
    if lo <= 0 {
        0
    } else if hi % lo == 0 {
        lo
    } else {
        spec_gcd(lo, hi % lo)
    }
}

/// A positive divisor of a positive number is at most that number.
proof fn lemma_divisor_bounded(d: int, n: int)
    requires
        1 <= d,
        1 <= n,
        divides(d, n),
    ensures
        d <= n,
{
    if n < d {
        lemma_small_mod(n as nat, d as nat);
    }
}

/// For a common divisor `d` of `lo`, divisibility of `hi` and of `hi % lo`
/// by `d` coincide.
proof fn lemma_divides_mod(d: int, lo: int, hi: int)
    requires
        1 <= d,
        1 <= lo,
        0 <= hi,
        divides(d, lo),
    ensures
        divides(d, hi) <==> divides(d, hi % lo),
{
    lemma_fundamental_div_mod(hi, lo);
    lemma_fundamental_div_mod(lo, d);
    let q = hi / lo;
    let k = lo / d;
    assert(lo == d * k);
    assert(lo * q == d * (k * q)) by {
        lemma_mul_is_associative(d, k, q);
    }
    assert(hi == d * (k * q) + hi % lo);
    lemma_mod_multiples_vanish(k * q, hi % lo, d);
}

/// The greatest common divisor earns its name: it is positive, divides both
/// arguments, and every common divisor is at most it.
pub proof fn lemma_gcd_properties(a: int, b: int)
    requires
        a > 0,
        b > 0,
    ensures
        spec_gcd(a, b) >= 1,
        divides(spec_gcd(a, b), a),
        divides(spec_gcd(a, b), b),
        forall|d: int| 1 <= d && divides(d, a) && divides(d, b) ==> d <= spec_gcd(a, b),
    decreases a + b,
{
    let lo = if a <= b {
        a
    } else {
        b
    };
    let hi = if a <= b {
        b
    } else {
        a
    };
    let g = spec_gcd(a, b);
    lemma_mod_division_less_than_divisor(hi, lo);
    if hi % lo == 0 {
        lemma_mod_self_0(lo);
        assert forall|d: int| 1 <= d && divides(d, a) && divides(d, b) implies d <= g by {
            lemma_divisor_bounded(d, lo);
        }
    } else {
        let r = hi % lo;
        lemma_gcd_properties(lo, r);
        assert(g == spec_gcd(lo, r));
        lemma_divides_mod(g, lo, hi);
        assert forall|d: int| 1 <= d && divides(d, a) && divides(d, b) implies d <= g by {
            lemma_divides_mod(d, lo, hi);
        }
    }
}

/// Greatest common divisor of two positive integers via the Euclidean
/// algorithm (repeated remainder), as the filter uses it to simplify an
/// image's width and height. Must not be called with a zero side.
pub fn max_common_divisor(a: u32, b: u32) -> (r: u32)
    requires
        a >= 1,
        b >= 1,
    ensures
        r == spec_gcd(a as int, b as int),
        r >= 1,
        divides(r as int, a as int),
        divides(r as int, b as int),
        forall|d: int| 1 <= d && divides(d, a as int) && divides(d, b as int) ==> d <= r,
    decreases a + b,
{
    proof {
        lemma_gcd_properties(a as int, b as int);
    }
    let (lo, hi) = if a <= b {
        (a, b)
    } else {
        (b, a)
    };
    if hi % lo == 0 {
        lo
    } else {
        max_common_divisor(lo, hi % lo)
    }
}

/// How many whole ratio units fit along both axes of `resolution`: the
/// smaller of the two per-axis quotients.
pub open spec fn spec_crop_unit(resolution: Resolution, ratio: Ratio) -> int
    recommends
        ratio.width >= 1,
        ratio.height >= 1,
{
    let qw = resolution.width as int / ratio.width as int;
    let qh = resolution.height as int / ratio.height as int;
    if qw <= qh {
        qw
    } else {
        qh
    }
}

/// The largest resolution of exactly the given aspect ratio that fits
/// inside `resolution`: the unit count times each ratio axis.
pub open spec fn spec_max_crop_size(resolution: Resolution, ratio: Ratio) -> Resolution {
    let u = spec_crop_unit(resolution, ratio);
    Resolution {
        width: (u * ratio.width as int) as u32,
        height: (u * ratio.height as int) as u32,
    }
}

/// The quotient of a division by a positive divisor, scaled back up,
/// never exceeds the dividend.
proof fn lemma_quot_scaled_bounded(x: int, d: int)
    requires
        x >= 0,
        d >= 1,
    ensures
        0 <= (x / d) * d <= x,
        x / d >= 0,
{
    lemma_fundamental_div_mod(x, d);
    lemma_mod_division_less_than_divisor(x, d);
    lemma_div_pos_is_pos(x, d);
    lemma_mul_is_commutative(d, x / d);
}

/// Largest resolution with the exact given aspect ratio that fits within
/// `resolution`, both sides whole pixels: the unit length is the smaller of
/// the per-axis quotients, and each side is that unit times the ratio axis.
/// With a source smaller than one ratio unit on some axis the result is a
/// zero-area resolution; callers must treat that as a failed crop.
pub fn calc_max_image_size_by_ratio(resolution: Resolution, ratio: Ratio) -> (r: Resolution)
    requires
        ratio.width >= 1,
        ratio.height >= 1,
    ensures
        r == spec_max_crop_size(resolution, ratio),
        r.width as int == spec_crop_unit(resolution, ratio) * ratio.width as int,
        r.height as int == spec_crop_unit(resolution, ratio) * ratio.height as int,
        r.width <= resolution.width,
        r.height <= resolution.height,
        r.width as int * ratio.height as int == r.height as int * ratio.width as int,
{
    let ratio_width = ratio.width as u32;
    let ratio_height = ratio.height as u32;
    let qw = resolution.width / ratio_width;
    let qh = resolution.height / ratio_height;
    let unit_length = if qw <= qh {
        qw
    } else {
        qh
    };
    proof {
        lemma_quot_scaled_bounded(resolution.width as int, ratio_width as int);
        lemma_quot_scaled_bounded(resolution.height as int, ratio_height as int);
        lemma_mul_inequality(unit_length as int, qw as int, ratio_width as int);
        lemma_mul_inequality(unit_length as int, qh as int, ratio_height as int);
        assert((unit_length as int * ratio_width as int) * ratio_height as int == (unit_length
            as int * ratio_height as int) * ratio_width as int) by (nonlinear_arith);
    }
    Resolution { width: unit_length * ratio_width, height: unit_length * ratio_height }
}

/// The computed crop unit is maximal: any larger whole multiple of the
/// ratio overflows the source resolution on at least one axis.
pub proof fn lemma_crop_unit_is_maximal(resolution: Resolution, ratio: Ratio, u: int)
    requires
        ratio.width >= 1,
        ratio.height >= 1,
        u > spec_crop_unit(resolution, ratio),
    ensures
        u * ratio.width as int > resolution.width as int || u * ratio.height as int
            > resolution.height as int,
{
    let rw = ratio.width as int;
    let rh = ratio.height as int;
    let w = resolution.width as int;
    let h = resolution.height as int;
    let qw = w / rw;
    let qh = h / rh;
    if qw <= qh {
        lemma_fundamental_div_mod(w, rw);
        lemma_mod_division_less_than_divisor(w, rw);
        lemma_mul_inequality(qw + 1, u, rw);
        lemma_mul_is_distributive_add_other_way(rw, qw, 1);
        lemma_mul_is_commutative(qw + 1, rw);
        lemma_mul_is_commutative(qw, rw);
    } else {
        lemma_fundamental_div_mod(h, rh);
        lemma_mod_division_less_than_divisor(h, rh);
        lemma_mul_inequality(qh + 1, u, rh);
        lemma_mul_is_distributive_add_other_way(rh, qh, 1);
        lemma_mul_is_commutative(qh + 1, rh);
        lemma_mul_is_commutative(qh, rh);
    }
}

/// Scaling both arguments of the greatest common divisor by a positive
/// factor scales the result by that factor.
pub proof fn lemma_gcd_scaling(k: int, a: int, b: int)
    requires
        k >= 1,
        a >= 1,
        b >= 1,
    ensures
        spec_gcd(k * a, k * b) == k * spec_gcd(a, b),
    decreases a + b,
{
    let lo = if a <= b {
        a
    } else {
        b
    };
    let hi = if a <= b {
        b
    } else {
        a
    };
    lemma_mul_strictly_positive(k, lo);
    lemma_mul_strictly_positive(k, hi);
    assert(k * lo <= k * hi) by {
        lemma_mul_inequality(lo, hi, k);
        lemma_mul_is_commutative(lo, k);
        lemma_mul_is_commutative(hi, k);
    }
    // (k * hi) % (k * lo) == k * (hi % lo)
    assert((k * hi) % (k * lo) == k * (hi % lo)) by {
        lemma_breakdown(k * hi, k, lo);
        lemma_div_multiples_vanish(hi, k);
        lemma_mod_multiples_vanish(hi, 0, k);
        assert(k * hi + 0 == k * hi);
    }
    lemma_mod_division_less_than_divisor(hi, lo);
    if hi % lo == 0 {
        assert(spec_gcd(k * a, k * b) == k * lo);
    } else {
        let r = hi % lo;
        lemma_mul_strictly_positive(k, r);
        lemma_gcd_scaling(k, lo, r);
        assert(spec_gcd(k * a, k * b) == spec_gcd(k * lo, k * r));
    }
}

/// Cropping to the computed size preserves the input ratio exactly: for a
/// reduced preset ratio and a source at least one ratio unit on both axes,
/// the crop's sides simplify by their own greatest common divisor back to
/// precisely the input ratio.
pub proof fn lemma_crop_size_has_exact_ratio(resolution: Resolution, ratio: Ratio)
    requires
        ratio.width >= 1,
        ratio.height >= 1,
        spec_gcd(ratio.width as int, ratio.height as int) == 1,
        spec_crop_unit(resolution, ratio) >= 1,
    ensures
        ({
            let c = spec_max_crop_size(resolution, ratio);
            let g = spec_gcd(c.width as int, c.height as int);
            g == spec_crop_unit(resolution, ratio) && c.width as int / g == ratio.width as int
                && c.height as int / g == ratio.height as int
        }),
{
    let u = spec_crop_unit(resolution, ratio);
    let rw = ratio.width as int;
    let rh = ratio.height as int;
    let qw = resolution.width as int / rw;
    let qh = resolution.height as int / rh;
    lemma_quot_scaled_bounded(resolution.width as int, rw);
    lemma_quot_scaled_bounded(resolution.height as int, rh);
    lemma_mul_inequality(u, qw, rw);
    lemma_mul_inequality(u, qh, rh);
    assert(u * rw <= resolution.width as int);
    assert(u * rh <= resolution.height as int);
    lemma_gcd_scaling(u, rw, rh);
    lemma_div_multiples_vanish(rw, u);
    lemma_div_multiples_vanish(rh, u);
}

} // verus!
