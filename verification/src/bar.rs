use vstd::prelude::*;

use crate::color::{color_at, spec_color_at, ColorPallet};
use crate::data::{normalized_entry_ok, spec_max, BarChartData, ChartError};
use crate::ratio::{is_ratio_of, lemma_abs_mul_le, Ratio, RatioPoint};
use crate::transform::{transform_wf, CoordinateTransform};
use crate::Extent2;

verus! {

/// The geometry of one bar, derived per layout pass: the top-left corner
/// in data space, the width/height pair, and the fill color.
#[derive(Clone, Copy, Debug, PartialEq, Eq, Structural)]
pub struct BarGeometry {
    pub origin: RatioPoint,
    pub extent: Extent2<Ratio>,
    pub color: u32,
}

/// Bar `i` of the layout of the series `d` on a `W x H` extent with
/// inter-bar gap `G`. Writing `n` for the number of values and `r_i` for
/// the normalized value (`value_i / max`): every bar is
/// `barWidth = (W - G(n-1)) / n` wide and `H * r_i` tall, its left edge is
/// at `i * (barWidth + G)` — which reduces to `i * (W + G) / n` — and its
/// top at `H - H * r_i`, so the bars grow upward from the baseline `H`.
/// The color is taken cyclically from the palette.
pub open spec fn bar_ok(
    b: BarGeometry,
    d: BarChartData,
    extent: Extent2<i64>,
    gap: int,
    pallet: ColorPallet,
    i: int,
) -> bool {
    let n = d.values@.len() as int;
    let nv = d.normalized_values@[i];
    &&& is_ratio_of(b.origin.x, i * (extent.width + gap), n)
    &&& b.origin.y.num == extent.height * (nv.den - nv.num)
    &&& b.origin.y.den == nv.den
    &&& is_ratio_of(b.extent.width, extent.width - gap * (n - 1), n)
    &&& b.extent.height.num == extent.height * nv.num
    &&& b.extent.height.den == nv.den
    &&& b.color == spec_color_at(pallet, i)
}

/// The full layout: one bar per value, in input order.
pub open spec fn bar_layout_ok(
    b: Seq<BarGeometry>,
    d: BarChartData,
    extent: Extent2<i64>,
    gap: int,
    pallet: ColorPallet,
) -> bool {
    &&& b.len() == d.values@.len()
    &&& forall|i: int| 0 <= i < b.len() ==> bar_ok(#[trigger] b[i], d, extent, gap, pallet, i)
}

impl BarChartData {
    /// The ordered bar geometry of this series: one bar per value, each
    /// pinned down by `bar_ok`. A negative extent is refused as
    /// `InvalidExtent`, an empty series as `EmptyInput`; a bar width that
    /// comes out negative (gaps wider than the extent) is a caller-visible
    /// degenerate result, not an error. The size bounds on the extent and
    /// the gap keep the exact arithmetic inside 128 bits.
    pub fn bar_layout(
        &self,
        extent: &Extent2<i64>,
        gap: i64,
        pallet: ColorPallet,
    ) -> (r: Result<Vec<BarGeometry>, ChartError>)
        requires
            self.wf(),
            0 <= gap <= 0x8000_0000,
            extent.width <= 0x8000_0000,
            extent.height <= 0x8000_0000,
        ensures
            match r {
                Ok(b) => {
                    &&& extent.width >= 0
                    &&& extent.height >= 0
                    &&& self.values@.len() > 0
                    &&& bar_layout_ok(b@, *self, *extent, gap as int, pallet)
                },
                Err(e) => {
                    ||| (e == ChartError::InvalidExtent && (extent.width < 0 || extent.height
                        < 0))
                    ||| (e == ChartError::EmptyInput && extent.width >= 0 && extent.height >= 0
                        && self.values@.len() == 0)
                },
            },
    {
        if extent.width < 0 || extent.height < 0 {
            return Err(ChartError::InvalidExtent);
        }
        let n = self.values.len();
        if n == 0 {
            return Err(ChartError::EmptyInput);
        }
        proof {
            lemma_abs_mul_le(gap as int, 0x8000_0000, n - 1 as int, usize::MAX as int);
        }
        let width_num: i128 = extent.width as i128 - (gap as i128) * ((n - 1) as i128);
        let mut bars: Vec<BarGeometry> = Vec::new();
        let mut i: usize = 0;
        while i < n
            invariant
                0 <= i <= n,
                n == self.values@.len(),
                self.wf(),
                0 <= gap <= 0x8000_0000,
                0 <= extent.width <= 0x8000_0000,
                0 <= extent.height <= 0x8000_0000,
                width_num == extent.width - gap * (n - 1),
                bars@.len() == i,
                forall|k: int|
                    0 <= k < i ==> bar_ok(#[trigger] bars@[k], *self, *extent, gap as int, pallet, k),
            decreases n - i,
        {
            let nv = self.normalized_values[i];
            proof {
                assert(normalized_entry_ok(nv, self.values@[i as int] as int, 0, spec_max(self.values@)));
                assert(-0x8000_0000_0000_0000 <= nv.num <= 0x8000_0000_0000_0000);
                assert(1 <= nv.den <= 0x8000_0000_0000_0000);
                lemma_abs_mul_le(
                    i as int,
                    usize::MAX as int,
                    extent.width + gap,
                    0x1_0000_0000,
                );
                lemma_abs_mul_le(
                    extent.height as int,
                    0x8000_0000,
                    nv.num as int,
                    0x8000_0000_0000_0000,
                );
                lemma_abs_mul_le(
                    extent.height as int,
                    0x8000_0000,
                    nv.den - nv.num,
                    0x1_0000_0000_0000_0000,
                );
            }
            let x_num: i128 = (i as i128) * (extent.width as i128 + gap as i128);
            let height_num: i128 = (extent.height as i128) * nv.num;
            let y_num: i128 = (extent.height as i128) * (nv.den - nv.num);
            let bar = BarGeometry {
                origin: RatioPoint {
                    x: Ratio { num: x_num, den: n as i128 },
                    y: Ratio { num: y_num, den: nv.den },
                },
                extent: Extent2 {
                    width: Ratio { num: width_num, den: n as i128 },
                    height: Ratio { num: height_num, den: nv.den },
                },
                color: color_at(pallet, i),
            };
            proof {
                assert(bar_ok(bar, *self, *extent, gap as int, pallet, i as int));
            }
            bars.push(bar);
            i = i + 1;
        }
        Ok(bars)
    }
}

/// The bars exactly fill the width: all `n` bars share one width, stored
/// over the denominator `n`, and `n * barWidth + (n - 1) * gap == width` as
/// rationals (stated with the denominator cleared).
pub proof fn lemma_bars_fill_width(
    b: Seq<BarGeometry>,
    d: BarChartData,
    extent: Extent2<i64>,
    gap: int,
    pallet: ColorPallet,
)
    requires
        d.values@.len() > 0,
        bar_layout_ok(b, d, extent, gap, pallet),
    ensures
        forall|i: int| 0 <= i < b.len() ==> (#[trigger] b[i]).extent.width == b[0].extent.width,
        b[0].extent.width.den == b.len(),
        (b.len() as int) * b[0].extent.width.num + (b.len() - 1) * gap * b[0].extent.width.den
            == extent.width * b[0].extent.width.den,
{
    let n = b.len() as int;
    assert(bar_ok(b[0], d, extent, gap, pallet, 0));
    assert forall|i: int| 0 <= i < b.len() implies (#[trigger] b[i]).extent.width
        == b[0].extent.width by {
        assert(bar_ok(b[i], d, extent, gap, pallet, i));
    }
    assert(n * (extent.width - gap * (n - 1)) + (n - 1) * gap * n == extent.width * n)
        by (nonlinear_arith);
}

/// Corner `k` of bar `b` (in drawing order: top-left of the bar's
/// rectangle, then down the left edge, across the bottom, and up the right
/// edge would be one choice; here, as drawn: origin, origin plus height,
/// origin plus both, origin plus width), mapped by the transform `t`.
pub open spec fn outline_point_ok(
    q: RatioPoint,
    b: BarGeometry,
    t: CoordinateTransform,
    k: int,
) -> bool {
    let cx = b.origin.x.num + if k == 2 || k == 3 {
        b.extent.width.num as int
    } else {
        0
    };
    let cy = b.origin.y.num + if k == 1 || k == 2 {
        b.extent.height.num as int
    } else {
        0
    };
    &&& q.x.num == t.sx * cx + t.tx * b.origin.x.den
    &&& q.x.den == b.origin.x.den
    &&& q.y.num == t.sy * cy + t.ty * b.origin.y.den
    &&& q.y.den == b.origin.y.den
}

/// Corner arithmetic on `b` stays moderate: the extent shares the origin's
/// denominators and all numerators leave room for one addition under the
/// transform bounds.
pub open spec fn bar_moderate(b: BarGeometry) -> bool {
    &&& b.extent.width.den == b.origin.x.den
    &&& b.extent.height.den == b.origin.y.den
    &&& 1 <= b.origin.x.den <= 0x1_0000_0000_0000_0000_0000
    &&& 1 <= b.origin.y.den <= 0x1_0000_0000_0000_0000_0000
    &&& -0x8_0000_0000_0000_0000_0000_0000 <= b.origin.x.num <= 0x8_0000_0000_0000_0000_0000_0000
    &&& -0x8_0000_0000_0000_0000_0000_0000 <= b.origin.y.num <= 0x8_0000_0000_0000_0000_0000_0000
    &&& -0x8_0000_0000_0000_0000_0000_0000 <= b.extent.width.num
        <= 0x8_0000_0000_0000_0000_0000_0000
    &&& -0x8_0000_0000_0000_0000_0000_0000 <= b.extent.height.num
        <= 0x8_0000_0000_0000_0000_0000_0000
}

/// The four corners of bar `b` in screen space: the rectangle's corners in
/// the drawing order of the original path (origin; origin shifted by the
/// height; by height and width; by the width), each mapped by `t`.
pub fn bar_outline(b: &BarGeometry, t: &CoordinateTransform) -> (r: Vec<RatioPoint>)
    requires
        transform_wf(*t),
        bar_moderate(*b),
    ensures
        r@.len() == 4,
        forall|k: int| 0 <= k < 4 ==> outline_point_ok(#[trigger] r@[k], *b, *t, k),
{
    let c0 = RatioPoint { x: b.origin.x, y: b.origin.y };
    let c1 = RatioPoint {
        x: b.origin.x,
        y: Ratio { num: b.origin.y.num + b.extent.height.num, den: b.origin.y.den },
    };
    let c2 = RatioPoint {
        x: Ratio { num: b.origin.x.num + b.extent.width.num, den: b.origin.x.den },
        y: Ratio { num: b.origin.y.num + b.extent.height.num, den: b.origin.y.den },
    };
    let c3 = RatioPoint {
        x: Ratio { num: b.origin.x.num + b.extent.width.num, den: b.origin.x.den },
        y: b.origin.y,
    };
    let mut r: Vec<RatioPoint> = Vec::new();
    r.push(t.transform_point(&c0));
    r.push(t.transform_point(&c1));
    r.push(t.transform_point(&c2));
    r.push(t.transform_point(&c3));
    r
}

} // verus!
