use vstd::prelude::*;

verus! {

/// An exact rational number `num / den`.
///
/// Well-formed values keep the denominator strictly positive (`ratio_wf`);
/// the sign of the quantity lives in the numerator. Layout code never
/// reduces fractions, so two values can denote the same rational with
/// different fields; sameness of denoted quantities is `ratio_eq`.
#[derive(Clone, Copy, Debug, PartialEq, Eq, Structural)]
pub struct Ratio {
    pub num: i128,
    pub den: i128,
}

/// A point with exact rational cartesian coordinates.
#[derive(Clone, Copy, Debug, PartialEq, Eq, Structural)]
pub struct RatioPoint {
    pub x: Ratio,
    pub y: Ratio,
}

/// The denominator is strictly positive.
pub open spec fn ratio_wf(r: Ratio) -> bool {
    r.den >= 1
}

/// `r` denotes the rational `n / d`, with the sign normalized into the
/// numerator so that the stored denominator stays positive. False when
/// `d == 0`: no ratio denotes a division by zero.
pub open spec fn is_ratio_of(r: Ratio, n: int, d: int) -> bool {
    if d > 0 {
        r.num == n && r.den == d
    } else if d < 0 {
        r.num == -n && r.den == -d
    } else {
        false
    }
}

/// `a` and `b` denote the same rational number (for well-formed values).
pub open spec fn ratio_eq(a: Ratio, b: Ratio) -> bool {
    a.num * b.den == b.num * a.den
}

/// The well-formed ratio `r` denotes exactly the integer `k`.
pub open spec fn ratio_is_int(r: Ratio, k: int) -> bool {
    r.num == k * r.den
}

/// A pair `(n, d)` with `d != 0` pins the normalized representation down:
/// two ratios of the same quantity built by `Ratio::of` are equal as values.
pub proof fn lemma_ratio_of_unique(a: Ratio, b: Ratio, n: int, d: int)
    requires
        is_ratio_of(a, n, d),
        is_ratio_of(b, n, d),
    ensures
        a == b,
{
}


/// Bounding a product by the product of the bounds.
pub proof fn lemma_abs_mul_le(x: int, xb: int, y: int, yb: int)
    by (nonlinear_arith)
    requires
        -xb <= x <= xb,
        -yb <= y <= yb,
        0 <= xb,
        0 <= yb,
    ensures
        -(xb * yb) <= x * y <= xb * yb,
{
}

impl Ratio {
    /// The rational `n / d`, with the sign moved into the numerator.
    pub fn of(n: i128, d: i128) -> (r: Ratio)
        requires
            d != 0,
            n != i128::MIN,
            d != i128::MIN,
        ensures
            is_ratio_of(r, n as int, d as int),
            ratio_wf(r),
    {
        if d > 0 {
            Ratio { num: n, den: d }
        } else {
            Ratio { num: -n, den: -d }
        }
    }

    /// The integer `n` as a rational with denominator 1.
    pub fn from_int(n: i64) -> (r: Ratio)
        ensures
            r.num == n as int,
            r.den == 1,
            ratio_wf(r),
            ratio_is_int(r, n as int),
    {
        Ratio { num: n as i128, den: 1 }
    }
}

} // verus!
