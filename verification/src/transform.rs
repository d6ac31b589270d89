use vstd::prelude::*;

use crate::ratio::{lemma_abs_mul_le, ratio_wf, Ratio, RatioPoint};

verus! {

/// The affine map from data space to screen space:
/// `x' = sx * x + tx`, `y' = sy * y + ty`.
///
/// The engine composes exactly two generators — the axis flip and the
/// translation — and their compositions never leave the axis-aligned form,
/// so the shear entries of the full 3x3 matrix are always zero and are not
/// stored. Consumers must not cache a transform across an extent change:
/// `view_matrix` is recomputed from the current chart height.
#[derive(Clone, Copy, Debug, PartialEq, Eq, Structural)]
pub struct CoordinateTransform {
    pub sx: i64,
    pub sy: i64,
    pub tx: i64,
    pub ty: i64,
}

/// Entry bounds under which transforming a moderate point cannot overflow:
/// scales up to 2^20, offsets up to 2^40.
pub open spec fn transform_wf(t: CoordinateTransform) -> bool {
    &&& -0x10_0000 <= t.sx <= 0x10_0000
    &&& -0x10_0000 <= t.sy <= 0x10_0000
    &&& -0x100_0000_0000 <= t.tx <= 0x100_0000_0000
    &&& -0x100_0000_0000 <= t.ty <= 0x100_0000_0000
}

/// Coordinate bounds under which transforming cannot overflow: numerators
/// up to 2^100, denominators positive and up to 2^80. Every point a layout
/// pass produces is well within these.
pub open spec fn point_moderate(p: RatioPoint) -> bool {
    &&& -0x10_0000_0000_0000_0000_0000_0000 <= p.x.num <= 0x10_0000_0000_0000_0000_0000_0000
    &&& -0x10_0000_0000_0000_0000_0000_0000 <= p.y.num <= 0x10_0000_0000_0000_0000_0000_0000
    &&& 1 <= p.x.den <= 0x1_0000_0000_0000_0000_0000
    &&& 1 <= p.y.den <= 0x1_0000_0000_0000_0000_0000
}

/// `q` is `p` mapped by `t`: each coordinate `num/den` goes to
/// `(s * num + t * den) / den`.
pub open spec fn transform_maps(t: CoordinateTransform, p: RatioPoint, q: RatioPoint) -> bool {
    &&& q.x.num == t.sx * p.x.num + t.tx * p.x.den
    &&& q.x.den == p.x.den
    &&& q.y.num == t.sy * p.y.num + t.ty * p.y.den
    &&& q.y.den == p.y.den
}

impl CoordinateTransform {
    /// The map that moves nothing.
    pub fn identity() -> (r: Self)
        ensures
            r == (CoordinateTransform { sx: 1i64, sy: 1i64, tx: 0i64, ty: 0i64 }),
    {
        CoordinateTransform { sx: 1, sy: 1, tx: 0, ty: 0 }
    }

    /// The axis flip: negates the y axis and leaves x alone.
    pub fn flip_y() -> (r: Self)
        ensures
            r == (CoordinateTransform { sx: 1i64, sy: -1i64, tx: 0i64, ty: 0i64 }),
    {
        CoordinateTransform { sx: 1, sy: -1, tx: 0, ty: 0 }
    }

    /// The translation by `(tx, ty)`.
    pub fn translation(tx: i64, ty: i64) -> (r: Self)
        ensures
            r == (CoordinateTransform { sx: 1i64, sy: 1i64, tx: tx, ty: ty }),
    {
        CoordinateTransform { sx: 1, sy: 1, tx, ty }
    }

    /// The composition `self` after `inner`: applying the result is
    /// applying `inner`, then `self`.
    pub fn compose(&self, inner: &Self) -> (r: Self)
        requires
            i64::MIN <= self.sx * inner.sx <= i64::MAX,
            i64::MIN <= self.sy * inner.sy <= i64::MAX,
            i64::MIN <= self.sx * inner.tx + self.tx <= i64::MAX,
            i64::MIN <= self.sy * inner.ty + self.ty <= i64::MAX,
        ensures
            r.sx == self.sx * inner.sx,
            r.sy == self.sy * inner.sy,
            r.tx == self.sx * inner.tx + self.tx,
            r.ty == self.sy * inner.ty + self.ty,
    {
        let sx = ((self.sx as i128) * (inner.sx as i128)) as i64;
        let sy = ((self.sy as i128) * (inner.sy as i128)) as i64;
        let tx = ((self.sx as i128) * (inner.tx as i128) + self.tx as i128) as i64;
        let ty = ((self.sy as i128) * (inner.ty as i128) + self.ty as i128) as i64;
        CoordinateTransform { sx, sy, tx, ty }
    }

    /// The map that places the data-space origin at the bottom-left of a
    /// drawing area of the given height, with y growing upward in data
    /// space: the axis flip followed by a translation by `(0, height)`.
    pub fn view_matrix(chart_height: i64) -> (r: Self)
        ensures
            r == (CoordinateTransform { sx: 1i64, sy: -1i64, tx: 0i64, ty: chart_height }),
    {
        Self::translation(0, chart_height).compose(&Self::flip_y())
    }

    /// `p` mapped by this transform, exactly: each coordinate keeps its
    /// denominator and its numerator becomes `s * num + t * den`.
    pub fn transform_point(&self, p: &RatioPoint) -> (q: RatioPoint)
        requires
            transform_wf(*self),
            point_moderate(*p),
        ensures
            transform_maps(*self, *p, q),
            ratio_wf(q.x),
            ratio_wf(q.y),
    {
        proof {
            lemma_abs_mul_le(
                self.sx as int,
                0x10_0000,
                p.x.num as int,
                0x10_0000_0000_0000_0000_0000_0000,
            );
            lemma_abs_mul_le(
                self.sy as int,
                0x10_0000,
                p.y.num as int,
                0x10_0000_0000_0000_0000_0000_0000,
            );
            lemma_abs_mul_le(
                self.tx as int,
                0x100_0000_0000,
                p.x.den as int,
                0x1_0000_0000_0000_0000_0000,
            );
            lemma_abs_mul_le(
                self.ty as int,
                0x100_0000_0000,
                p.y.den as int,
                0x1_0000_0000_0000_0000_0000,
            );
        }
        let xn = (self.sx as i128) * p.x.num + (self.tx as i128) * p.x.den;
        let yn = (self.sy as i128) * p.y.num + (self.ty as i128) * p.y.den;
        RatioPoint {
            x: Ratio { num: xn, den: p.x.den },
            y: Ratio { num: yn, den: p.y.den },
        }
    }
}

} // verus!
