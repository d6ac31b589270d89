use vstd::prelude::*;

use crate::color::{color_at, spec_color_at, ColorPallet};
use crate::data::{ChartError, PieChartData, PieChartItem};
use crate::ratio::{is_ratio_of, lemma_ratio_of_unique, ratio_eq, Ratio};

verus! {

/// A point on a circle centered at the chart origin, held exactly in polar
/// form: `fraction` is the clockwise fraction of a full turn measured from
/// the 12-o'clock position, `radius` the distance from the center. The
/// cartesian position is
/// `(radius * cos(2pi(fraction - 1/4)), radius * sin(2pi(fraction - 1/4)))`
/// in y-down screen coordinates; evaluating the trigonometry is the
/// renderer's job, outside this crate.
#[derive(Clone, Copy, Debug, PartialEq, Eq, Structural)]
pub struct ArcPoint {
    pub fraction: Ratio,
    pub radius: Ratio,
}

/// The geometry of one pie wedge, derived and immutable per layout pass:
/// the share of the whole, the two radii of the donut ring, the four
/// boundary points, the fill color, and whether the outer arc must be drawn
/// the long way round.
#[derive(Clone, Copy, Debug, PartialEq, Eq, Structural)]
pub struct WedgeGeometry {
    pub value: i64,
    pub percentage: Ratio,
    pub outer_radius: Ratio,
    pub inner_radius: Ratio,
    pub start_outer: ArcPoint,
    pub end_outer: ArcPoint,
    pub start_inner: ArcPoint,
    pub end_inner: ArcPoint,
    pub color: u32,
    pub large_arc: bool,
}

/// The sum of the first `k` item values.
pub open spec fn prefix_value_sum(items: Seq<PieChartItem>, k: int) -> int
    decreases k,
{
    if k <= 0 {
        0
    } else {
        prefix_value_sum(items, k - 1) + items[k - 1].value
    }
}

/// The sum of all item values.
pub open spec fn total_value(items: Seq<PieChartItem>) -> int {
    prefix_value_sum(items, items.len() as int)
}

/// The wedge spans more than half the circle (percentage > 50), so its
/// outer arc needs the major sweep.
pub open spec fn spec_large_arc(value: int, total: int) -> bool {
    if total > 0 {
        2 * value > total
    } else {
        2 * value < total
    }
}

/// Wedge `i` of the layout of `items` with palette `pallet` and outer
/// radius `radius`. Writing `t` for the total and `s_i` for the sum of the
/// values before item `i`: the percentage is `100 * value_i / t`; the outer
/// boundary runs from turn fraction `s_i / t` to `s_{i+1} / t` at radius
/// `radius`; the inner boundary covers the same fractions at half the
/// radius (a donut ring); the color is taken cyclically from the palette.
pub open spec fn wedge_ok(
    w: WedgeGeometry,
    items: Seq<PieChartItem>,
    pallet: ColorPallet,
    radius: int,
    i: int,
) -> bool {
    let t = total_value(items);
    &&& w.value == items[i].value
    &&& is_ratio_of(w.percentage, 100 * items[i].value, t)
    &&& is_ratio_of(w.outer_radius, radius, 1)
    &&& is_ratio_of(w.inner_radius, radius, 2)
    &&& is_ratio_of(w.start_outer.fraction, prefix_value_sum(items, i), t)
    &&& is_ratio_of(w.start_outer.radius, radius, 1)
    &&& is_ratio_of(w.end_outer.fraction, prefix_value_sum(items, i + 1), t)
    &&& is_ratio_of(w.end_outer.radius, radius, 1)
    &&& is_ratio_of(w.start_inner.fraction, prefix_value_sum(items, i), t)
    &&& is_ratio_of(w.start_inner.radius, radius, 2)
    &&& is_ratio_of(w.end_inner.fraction, prefix_value_sum(items, i + 1), t)
    &&& is_ratio_of(w.end_inner.radius, radius, 2)
    &&& w.color == spec_color_at(pallet, i)
    &&& w.large_arc == spec_large_arc(items[i].value as int, t)
}

/// The full layout: one wedge per item, in input order.
pub open spec fn pie_layout_ok(
    w: Seq<WedgeGeometry>,
    items: Seq<PieChartItem>,
    pallet: ColorPallet,
    radius: int,
) -> bool {
    &&& w.len() == items.len()
    &&& forall|i: int| 0 <= i < w.len() ==> wedge_ok(#[trigger] w[i], items, pallet, radius, i)
}

impl PieChartData {
    /// The ordered wedge geometry of this dataset: one wedge per item, each
    /// pinned down by `wedge_ok`. The layout is well defined exactly when
    /// there is at least one item and the values do not sum to zero; the
    /// error says which condition failed. The first wedge starts at the
    /// 12-o'clock position (turn fraction 0) and the boundary advances
    /// clockwise by each item's share of the total. Negative values are
    /// accepted deliberately and flow through the same arithmetic: a
    /// negative share moves the boundary backward, giving a reverse-swept
    /// wedge; only a zero total is refused.
    pub fn pie_layout(&self, radius: i64) -> (r: Result<Vec<WedgeGeometry>, ChartError>)
        requires
            radius >= 0,
        ensures
            match r {
                Ok(w) => {
                    &&& self.items@.len() > 0
                    &&& total_value(self.items@) != 0
                    &&& pie_layout_ok(w@, self.items@, self.color_pallet, radius as int)
                },
                Err(e) => {
                    ||| (e == ChartError::EmptyInput && self.items@.len() == 0)
                    ||| (e == ChartError::DegenerateDataset && self.items@.len() > 0
                        && total_value(self.items@) == 0)
                },
            },
    {
        let n = self.items.len();
        if n == 0 {
            return Err(ChartError::EmptyInput);
        }
        let mut total: i128 = 0;
        let mut j: usize = 0;
        while j < n
            invariant
                0 <= j <= n,
                n == self.items@.len(),
                total == prefix_value_sum(self.items@, j as int),
                -((j as int) * 0x8000_0000_0000_0000) <= total
                    <= (j as int) * 0x8000_0000_0000_0000,
            decreases n - j,
        {
            proof {
                assert((n as int) * 0x8000_0000_0000_0000
                    <= (usize::MAX as int) * 0x8000_0000_0000_0000);
            }
            total = total + self.items[j].value as i128;
            j = j + 1;
        }
        if total == 0 {
            return Err(ChartError::DegenerateDataset);
        }
        proof {
            assert((n as int) * 0x8000_0000_0000_0000
                <= (usize::MAX as int) * 0x8000_0000_0000_0000);
        }
        let mut wedges: Vec<WedgeGeometry> = Vec::new();
        let mut cum: i128 = 0;
        let mut j: usize = 0;
        while j < n
            invariant
                0 <= j <= n,
                n == self.items@.len(),
                radius >= 0,
                total == total_value(self.items@),
                total != 0,
                i128::MIN < total <= i128::MAX,
                cum == prefix_value_sum(self.items@, j as int),
                -((j as int) * 0x8000_0000_0000_0000) <= cum
                    <= (j as int) * 0x8000_0000_0000_0000,
                wedges@.len() == j,
                forall|i: int|
                    0 <= i < j ==> wedge_ok(
                        #[trigger] wedges@[i],
                        self.items@,
                        self.color_pallet,
                        radius as int,
                        i,
                    ),
            decreases n - j,
        {
            proof {
                assert((n as int) * 0x8000_0000_0000_0000
                    <= (usize::MAX as int) * 0x8000_0000_0000_0000);
            }
            let value = self.items[j].value;
            let next = cum + value as i128;
            let start_fraction = Ratio::of(cum, total);
            let end_fraction = Ratio::of(next, total);
            let outer_radius = Ratio { num: radius as i128, den: 1 };
            let inner_radius = Ratio { num: radius as i128, den: 2 };
            let large_arc = if total > 0 {
                2 * (value as i128) > total
            } else {
                2 * (value as i128) < total
            };
            let wedge = WedgeGeometry {
                value,
                percentage: Ratio::of(100 * (value as i128), total),
                outer_radius,
                inner_radius,
                start_outer: ArcPoint { fraction: start_fraction, radius: outer_radius },
                end_outer: ArcPoint { fraction: end_fraction, radius: outer_radius },
                start_inner: ArcPoint { fraction: start_fraction, radius: inner_radius },
                end_inner: ArcPoint { fraction: end_fraction, radius: inner_radius },
                color: color_at(self.color_pallet, j),
                large_arc,
            };
            proof {
                assert(wedge_ok(wedge, self.items@, self.color_pallet, radius as int, j as int));
            }
            wedges.push(wedge);
            cum = next;
            j = j + 1;
        }
        Ok(wedges)
    }
}


/// The fields of `r` are moderate in size, so the hover scaling cannot
/// overflow. Every radius a layout pass produces satisfies this: its
/// numerator is the chart radius and its denominator 1 or 2.
pub open spec fn ratio_small(r: Ratio) -> bool {
    &&& -0x1_0000_0000_0000_0000 <= r.num <= 0x1_0000_0000_0000_0000
    &&& 1 <= r.den <= 0x1_0000_0000_0000_0000
}

/// The six radius components of `w` are moderate in size (`ratio_small`).
pub open spec fn wedge_radii_bounded(w: WedgeGeometry) -> bool {
    &&& ratio_small(w.outer_radius)
    &&& ratio_small(w.inner_radius)
    &&& ratio_small(w.start_outer.radius)
    &&& ratio_small(w.end_outer.radius)
    &&& ratio_small(w.start_inner.radius)
    &&& ratio_small(w.end_inner.radius)
}

/// `s` is `r` multiplied by the hover pop-out factor 43/40 (= 1.075).
pub open spec fn ratio_scaled_up(s: Ratio, r: Ratio) -> bool {
    s.num == 43 * r.num && s.den == 40 * r.den
}

/// `s` is `w` popped outward for hover: the radius of every boundary point
/// and both radius fields are scaled by 43/40, while the turn fractions,
/// value, percentage, color and arc flag are unchanged.
pub open spec fn scaled_wedge_ok(s: WedgeGeometry, w: WedgeGeometry) -> bool {
    &&& s.value == w.value
    &&& s.percentage == w.percentage
    &&& ratio_scaled_up(s.outer_radius, w.outer_radius)
    &&& ratio_scaled_up(s.inner_radius, w.inner_radius)
    &&& s.start_outer.fraction == w.start_outer.fraction
    &&& ratio_scaled_up(s.start_outer.radius, w.start_outer.radius)
    &&& s.end_outer.fraction == w.end_outer.fraction
    &&& ratio_scaled_up(s.end_outer.radius, w.end_outer.radius)
    &&& s.start_inner.fraction == w.start_inner.fraction
    &&& ratio_scaled_up(s.start_inner.radius, w.start_inner.radius)
    &&& s.end_inner.fraction == w.end_inner.fraction
    &&& ratio_scaled_up(s.end_inner.radius, w.end_inner.radius)
    &&& s.color == w.color
    &&& s.large_arc == w.large_arc
}

/// `r` scaled by the hover factor 43/40.
fn scale_radius(r: &Ratio) -> (s: Ratio)
    requires
        ratio_small(*r),
    ensures
        ratio_scaled_up(s, *r),
{
    Ratio { num: 43 * r.num, den: 40 * r.den }
}

/// The geometry to draw for a wedge given its hover state: the wedge
/// unchanged when idle, and popped outward by the fixed factor 43/40 when
/// hovered. Recomputing with `hovered == false` restores the unscaled
/// geometry exactly.
pub fn highlighted_geometry(w: &WedgeGeometry, hovered: bool) -> (r: WedgeGeometry)
    requires
        wedge_radii_bounded(*w),
    ensures
        hovered ==> scaled_wedge_ok(r, *w),
        !hovered ==> r == *w,
{
    if hovered {
        WedgeGeometry {
            value: w.value,
            percentage: w.percentage,
            outer_radius: scale_radius(&w.outer_radius),
            inner_radius: scale_radius(&w.inner_radius),
            start_outer: ArcPoint {
                fraction: w.start_outer.fraction,
                radius: scale_radius(&w.start_outer.radius),
            },
            end_outer: ArcPoint {
                fraction: w.end_outer.fraction,
                radius: scale_radius(&w.end_outer.radius),
            },
            start_inner: ArcPoint {
                fraction: w.start_inner.fraction,
                radius: scale_radius(&w.start_inner.radius),
            },
            end_inner: ArcPoint {
                fraction: w.end_inner.fraction,
                radius: scale_radius(&w.end_inner.radius),
            },
            color: w.color,
            large_arc: w.large_arc,
        }
    } else {
        *w
    }
}

/// A layout pass always yields wedges whose radii are moderate, so the
/// hover scaling applies to them without further ado.
pub proof fn lemma_layout_radii_bounded(
    w: Seq<WedgeGeometry>,
    items: Seq<PieChartItem>,
    pallet: ColorPallet,
    radius: int,
    i: int,
)
    requires
        pie_layout_ok(w, items, pallet, radius),
        0 <= radius <= i64::MAX,
        0 <= i < w.len(),
    ensures
        wedge_radii_bounded(w[i]),
{
    assert(wedge_ok(w[i], items, pallet, radius, i));
}

/// One drawing command of a wedge outline.
#[derive(Clone, Copy, Debug, PartialEq, Eq, Structural)]
pub enum PathCommand {
    /// Move to the point without drawing.
    MoveTo(ArcPoint),
    /// Draw a circular arc to `end` with the given radius. `large_arc`
    /// selects the major (more than half a turn) sweep between the two
    /// points; `sweep_clockwise` the drawing direction.
    ArcTo { radius: Ratio, large_arc: bool, sweep_clockwise: bool, end: ArcPoint },
    /// Draw a straight segment to the point.
    LineTo(ArcPoint),
}

/// The outline of a wedge: the outer arc from its start to its end
/// boundary (clockwise, with the major sweep iff the wedge covers more than
/// half the circle), a straight segment inward to the inner boundary, the
/// inner arc traversed backward (the opposite sweep direction, same
/// large-arc flag), and a straight segment closing back to the outer start.
pub fn wedge_path(w: &WedgeGeometry) -> (r: Vec<PathCommand>)
    ensures
        r@.len() == 5,
        r@[0] == PathCommand::MoveTo(w.start_outer),
        r@[1] == (PathCommand::ArcTo {
            radius: w.outer_radius,
            large_arc: w.large_arc,
            sweep_clockwise: true,
            end: w.end_outer,
        }),
        r@[2] == PathCommand::LineTo(w.end_inner),
        r@[3] == (PathCommand::ArcTo {
            radius: w.inner_radius,
            large_arc: w.large_arc,
            sweep_clockwise: false,
            end: w.start_inner,
        }),
        r@[4] == PathCommand::LineTo(w.start_outer),
{
    let mut r: Vec<PathCommand> = Vec::new();
    r.push(PathCommand::MoveTo(w.start_outer));
    r.push(PathCommand::ArcTo {
        radius: w.outer_radius,
        large_arc: w.large_arc,
        sweep_clockwise: true,
        end: w.end_outer,
    });
    r.push(PathCommand::LineTo(w.end_inner));
    r.push(PathCommand::ArcTo {
        radius: w.inner_radius,
        large_arc: w.large_arc,
        sweep_clockwise: false,
        end: w.start_inner,
    });
    r.push(PathCommand::LineTo(w.start_outer));
    r
}

/// `t` with its sign dropped.
pub open spec fn magnitude(t: int) -> int {
    if t >= 0 {
        t
    } else {
        -t
    }
}

/// The sum of the percentage numerators of the first `k` wedges.
pub open spec fn percentage_num_sum(w: Seq<WedgeGeometry>, k: int) -> int
    decreases k,
{
    if k <= 0 {
        0
    } else {
        percentage_num_sum(w, k - 1) + w[k - 1].percentage.num
    }
}

proof fn lemma_percentage_prefix(
    w: Seq<WedgeGeometry>,
    items: Seq<PieChartItem>,
    pallet: ColorPallet,
    radius: int,
    k: int,
)
    requires
        total_value(items) != 0,
        pie_layout_ok(w, items, pallet, radius),
        0 <= k <= w.len(),
    ensures
        percentage_num_sum(w, k) == if total_value(items) > 0 {
            100 * prefix_value_sum(items, k)
        } else {
            -100 * prefix_value_sum(items, k)
        },
    decreases k,
{
    if k > 0 {
        lemma_percentage_prefix(w, items, pallet, radius, k - 1);
        assert(wedge_ok(w[k - 1], items, pallet, radius, k - 1));
    }
}

/// The percentages of a layout sum to exactly 100: each wedge stores its
/// percentage over the common positive denominator |total|, and the
/// numerators add up to 100 * |total|.
pub proof fn lemma_percentages_sum_to_100(
    w: Seq<WedgeGeometry>,
    items: Seq<PieChartItem>,
    pallet: ColorPallet,
    radius: int,
)
    requires
        items.len() > 0,
        total_value(items) != 0,
        pie_layout_ok(w, items, pallet, radius),
    ensures
        forall|i: int|
            0 <= i < w.len() ==> (#[trigger] w[i]).percentage.den == magnitude(
                total_value(items),
            ),
        percentage_num_sum(w, w.len() as int) == 100 * magnitude(total_value(items)),
{
    assert forall|i: int| 0 <= i < w.len() implies (#[trigger] w[i]).percentage.den == magnitude(
        total_value(items),
    ) by {
        assert(wedge_ok(w[i], items, pallet, radius, i));
    }
    lemma_percentage_prefix(w, items, pallet, radius, w.len() as int);
}

/// Arc continuity: wedge `i` ends exactly where wedge `i + 1` starts, on
/// the outer and the inner boundary alike.
pub proof fn lemma_wedge_continuity(
    w: Seq<WedgeGeometry>,
    items: Seq<PieChartItem>,
    pallet: ColorPallet,
    radius: int,
    i: int,
)
    requires
        total_value(items) != 0,
        pie_layout_ok(w, items, pallet, radius),
        0 <= i,
        i + 1 < w.len(),
    ensures
        w[i].end_outer == w[i + 1].start_outer,
        w[i].end_inner == w[i + 1].start_inner,
{
    let t = total_value(items);
    assert(wedge_ok(w[i], items, pallet, radius, i));
    assert(wedge_ok(w[i + 1], items, pallet, radius, i + 1));
    // both boundary points represent the fraction s_{i+1} / t at the same
    // radius, and a (numerator, denominator) pair pins the fields down
    lemma_ratio_of_unique(
        w[i].end_outer.fraction,
        w[i + 1].start_outer.fraction,
        prefix_value_sum(items, i + 1),
        t,
    );
    lemma_ratio_of_unique(w[i].end_outer.radius, w[i + 1].start_outer.radius, radius, 1);
    lemma_ratio_of_unique(
        w[i].end_inner.fraction,
        w[i + 1].start_inner.fraction,
        prefix_value_sum(items, i + 1),
        t,
    );
    lemma_ratio_of_unique(w[i].end_inner.radius, w[i + 1].start_inner.radius, radius, 2);
}

/// `a` and `b` lie at the same point of the circle: their radii denote the
/// same length and their turn fractions differ by a whole number of turns.
pub open spec fn same_circle_point(a: ArcPoint, b: ArcPoint) -> bool {
    &&& ratio_eq(a.radius, b.radius)
    &&& (a.fraction.num * b.fraction.den - b.fraction.num * a.fraction.den) % (a.fraction.den
        * b.fraction.den) == 0
}

/// The pie closes: the last wedge's end boundary lies at the same circle
/// point as the first wedge's start, exactly one full turn ahead of it.
pub proof fn lemma_pie_closes(
    w: Seq<WedgeGeometry>,
    items: Seq<PieChartItem>,
    pallet: ColorPallet,
    radius: int,
)
    requires
        items.len() > 0,
        total_value(items) != 0,
        pie_layout_ok(w, items, pallet, radius),
    ensures
        same_circle_point(w[w.len() - 1].end_outer, w[0].start_outer),
        same_circle_point(w[w.len() - 1].end_inner, w[0].start_inner),
{
    let t = total_value(items);
    let n = w.len() as int;
    let m = magnitude(t);
    assert(wedge_ok(w[n - 1], items, pallet, radius, n - 1));
    assert(wedge_ok(w[0], items, pallet, radius, 0));
    assert(prefix_value_sum(items, n) == t);
    assert(prefix_value_sum(items, 0) == 0);
    assert(m >= 1);
    assert(m * m >= 1) by (nonlinear_arith)
        requires
            m >= 1,
    ;
    vstd::arithmetic::div_mod::lemma_mod_self_0(m * m);
    assert((m * m - 0 * m) % (m * m) == 0);
}


} // verus!
