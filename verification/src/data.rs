use vstd::prelude::*;

use crate::color::ColorPallet;
use crate::ratio::{is_ratio_of, ratio_is_int, ratio_wf, Ratio};

verus! {

/// Why a layout pass refused its input. A malformed dataset fails the whole
/// pass: no partial geometry is ever returned.
#[derive(Clone, Copy, Debug, PartialEq, Eq, Structural)]
pub enum ChartError {
    /// The dataset holds no items or values.
    EmptyInput,
    /// The pie values sum to zero, so the wedge fractions are undefined.
    DegenerateDataset,
    /// The drawing extent has a negative width or height.
    InvalidExtent,
}

/// One categorical datum of a pie chart. The value is an integer; callers
/// pick a fixed-point scale for fractional data, and every derived share is
/// scale-invariant.
#[derive(Clone, Debug)]
pub struct PieChartItem {
    pub name: String,
    pub value: i64,
}

/// A pie dataset: the items in display order, a caption, and the palette
/// the wedges take their colors from.
#[derive(Clone, Debug)]
pub struct PieChartData {
    pub items: Vec<PieChartItem>,
    pub caption: String,
    pub color_pallet: ColorPallet,
}

/// One record of a plain bar dataset.
#[derive(Clone, Copy, Debug)]
pub struct Record {
    pub value: i64,
}

/// A plain bar dataset: the records in display order.
#[derive(Clone, Debug)]
pub struct Dataset {
    pub records: Vec<Record>,
}

/// Presentation options of a bar chart.
#[derive(Clone, Debug)]
pub struct BarChartOptions {
    pub title: String,
}

/// The least value of `s`; 0 when `s` is empty.
pub open spec fn spec_min(s: Seq<i64>) -> int
    decreases s.len(),
{
    if s.len() == 0 {
        0
    } else if s.len() == 1 {
        s[0] as int
    } else {
        let m = spec_min(s.drop_last());
        if s.last() < m {
            s.last() as int
        } else {
            m
        }
    }
}

/// The greatest value of `s`; 0 when `s` is empty.
pub open spec fn spec_max(s: Seq<i64>) -> int
    decreases s.len(),
{
    if s.len() == 0 {
        0
    } else if s.len() == 1 {
        s[0] as int
    } else {
        let m = spec_max(s.drop_last());
        if s.last() > m {
            s.last() as int
        } else {
            m
        }
    }
}

/// `r` is the normalized form of `v` over the range `floor..ceiling`:
/// `(v - floor) / (ceiling - floor)`. When the range is empty
/// (`ceiling == floor`) the division is undefined and the entry is clamped
/// to zero — an explicit policy, chosen over failing the whole series.
pub open spec fn normalized_entry_ok(r: Ratio, v: int, floor: int, ceiling: int) -> bool {
    if ceiling != floor {
        is_ratio_of(r, v - floor, ceiling - floor)
    } else {
        r == (Ratio { num: 0, den: 1 })
    }
}

/// A bar series: labels and values in display order, together with the
/// normalization derived from the values. The derived fields are recomputed
/// atomically whenever the values change; no inconsistent intermediate
/// state is observable.
#[derive(Clone, Debug)]
pub struct BarChartData {
    pub domain: Vec<String>,
    pub values: Vec<i64>,
    pub normalized_values: Vec<Ratio>,
    pub min_value: i64,
    pub max_value: i64,
}

impl BarChartData {
    /// Internal consistency: one label and one normalized entry per value,
    /// the cached extrema are the true extrema, and each normalized entry
    /// is its value rescaled over `0..max` (the floor is fixed at 0 and the
    /// ceiling at the maximum — a design choice of the bar layout, not a
    /// generic default).
    pub open spec fn wf(self) -> bool {
        &&& self.domain@.len() == self.values@.len()
        &&& self.normalized_values@.len() == self.values@.len()
        &&& self.min_value == spec_min(self.values@)
        &&& self.max_value == spec_max(self.values@)
        &&& forall|i: int|
            0 <= i < self.values@.len() ==> normalized_entry_ok(
                #[trigger] self.normalized_values@[i],
                self.values@[i] as int,
                0,
                spec_max(self.values@),
            )
        &&& forall|i: int|
            0 <= i < self.values@.len() ==> ratio_wf(#[trigger] self.normalized_values@[i])
    }

    /// The least and greatest of `values` in one pass; an empty series has
    /// no extrema and is refused.
    pub fn min_and_max(values: &Vec<i64>) -> (r: Result<(i64, i64), ChartError>)
        ensures
            match r {
                Ok(p) => {
                    &&& values@.len() > 0
                    &&& p.0 == spec_min(values@)
                    &&& p.1 == spec_max(values@)
                },
                Err(e) => e == ChartError::EmptyInput && values@.len() == 0,
            },
    {
        if values.len() == 0 {
            return Err(ChartError::EmptyInput);
        }
        let mut mn: i64 = values[0];
        let mut mx: i64 = values[0];
        let mut j: usize = 1;
        while j < values.len()
            invariant
                1 <= j <= values@.len(),
                mn == spec_min(values@.subrange(0, j as int)),
                mx == spec_max(values@.subrange(0, j as int)),
            decreases values@.len() - j,
        {
            let v = values[j];
            proof {
                let s1 = values@.subrange(0, j + 1 as int);
                assert(s1.drop_last() =~= values@.subrange(0, j as int));
            }
            if v < mn {
                mn = v;
            }
            if v > mx {
                mx = v;
            }
            j = j + 1;
        }
        proof {
            assert(values@.subrange(0, values@.len() as int) =~= values@);
        }
        Ok((mn, mx))
    }

    /// `result[i] = (values[i] - floor) / (ceiling - floor)`, exactly; an
    /// empty range (`ceiling == floor`) clamps every entry to zero (see
    /// `normalized_entry_ok`).
    pub fn normalize(values: &Vec<i64>, floor: i64, ceiling: i64) -> (r: Vec<Ratio>)
        ensures
            r@.len() == values@.len(),
            forall|i: int|
                0 <= i < values@.len() ==> normalized_entry_ok(
                    #[trigger] r@[i],
                    values@[i] as int,
                    floor as int,
                    ceiling as int,
                ),
            forall|i: int| 0 <= i < values@.len() ==> ratio_wf(#[trigger] r@[i]),
    {
        let mut r: Vec<Ratio> = Vec::new();
        let mut j: usize = 0;
        while j < values.len()
            invariant
                0 <= j <= values@.len(),
                r@.len() == j,
                forall|i: int|
                    0 <= i < j ==> normalized_entry_ok(
                        #[trigger] r@[i],
                        values@[i] as int,
                        floor as int,
                        ceiling as int,
                    ),
                forall|i: int| 0 <= i < j ==> ratio_wf(#[trigger] r@[i]),
            decreases values@.len() - j,
        {
            let d: i128 = ceiling as i128 - floor as i128;
            let entry = if d != 0 {
                Ratio::of(values[j] as i128 - floor as i128, d)
            } else {
                Ratio { num: 0, den: 1 }
            };
            r.push(entry);
            j = j + 1;
        }
        r
    }

    /// A bar series over `values`, labelled by `domain`, with the
    /// normalization computed with floor 0 and ceiling `max(values)`.
    pub fn new(domain: Vec<String>, values: Vec<i64>) -> (r: Result<Self, ChartError>)
        requires
            domain@.len() == values@.len(),
        ensures
            match r {
                Ok(d) => {
                    &&& values@.len() > 0
                    &&& d.wf()
                    &&& d.domain == domain
                    &&& d.values == values
                },
                Err(e) => e == ChartError::EmptyInput && values@.len() == 0,
            },
    {
        let (min_value, max_value) = match Self::min_and_max(&values) {
            Ok(p) => p,
            Err(e) => {
                return Err(e);
            },
        };
        let normalized_values = Self::normalize(&values, 0, max_value);
        Ok(BarChartData { domain, values, normalized_values, min_value, max_value })
    }

    /// Replace the labels; the values and their normalization are untouched.
    /// To change the number of bars, build a new series instead.
    pub fn set_domain(&mut self, domain: Vec<String>)
        requires
            old(self).wf(),
            domain@.len() == old(self).values@.len(),
        ensures
            final(self).wf(),
            final(self).domain == domain,
            final(self).values == old(self).values,
            final(self).normalized_values == old(self).normalized_values,
            final(self).min_value == old(self).min_value,
            final(self).max_value == old(self).max_value,
    {
        self.domain = domain;
    }

    /// Replace the values, recomputing the extrema and the normalization in
    /// the same step; on an empty replacement the series is left unchanged
    /// and the error says so.
    pub fn set_values(&mut self, values: Vec<i64>) -> (r: Result<(), ChartError>)
        requires
            old(self).wf(),
            values@.len() == old(self).domain@.len(),
        ensures
            match r {
                Ok(unit) => {
                    &&& values@.len() > 0
                    &&& final(self).wf()
                    &&& final(self).values == values
                    &&& final(self).domain == old(self).domain
                },
                Err(e) => {
                    &&& e == ChartError::EmptyInput
                    &&& values@.len() == 0
                    &&& *final(self) == *old(self)
                },
            },
    {
        let (min_value, max_value) = match Self::min_and_max(&values) {
            Ok(p) => p,
            Err(e) => {
                return Err(e);
            },
        };
        self.normalized_values = Self::normalize(&values, 0, max_value);
        self.values = values;
        self.min_value = min_value;
        self.max_value = max_value;
        Ok(())
    }
}


/// The extrema bound every entry of the series.
pub proof fn lemma_min_max_are_extrema(s: Seq<i64>, i: int)
    requires
        0 <= i < s.len(),
    ensures
        spec_min(s) <= s[i] <= spec_max(s),
    decreases s.len(),
{
    if s.len() > 1 && i < s.len() - 1 {
        lemma_min_max_are_extrema(s.drop_last(), i);
    }
}

/// The extrema are attained: some entry holds the minimum and some entry
/// the maximum.
pub proof fn lemma_extrema_attained(s: Seq<i64>)
    requires
        s.len() > 0,
    ensures
        exists|i: int| 0 <= i < s.len() && s[i] == spec_min(s),
        exists|j: int| 0 <= j < s.len() && s[j] == spec_max(s),
    decreases s.len(),
{
    if s.len() == 1 {
        assert(s[0] == spec_min(s));
        assert(s[0] == spec_max(s));
    } else {
        lemma_extrema_attained(s.drop_last());
        let i = choose|i: int|
            0 <= i < s.drop_last().len() && s.drop_last()[i] == spec_min(s.drop_last());
        let j = choose|j: int|
            0 <= j < s.drop_last().len() && s.drop_last()[j] == spec_max(s.drop_last());
        if s.last() < spec_min(s.drop_last()) {
            assert(s[s.len() - 1] == spec_min(s));
        } else {
            assert(s[i] == spec_min(s));
        }
        if s.last() > spec_max(s.drop_last()) {
            assert(s[s.len() - 1] == spec_max(s));
        } else {
            assert(s[j] == spec_max(s));
        }
    }
}

/// Recomputing the normalization leaves exactly 1 at every position that
/// holds the maximum, whenever the maximum is nonzero (with floor 0 and
/// ceiling `max`, the entry at an argmax is `max / max`). When the maximum
/// is zero the range is empty and the entry is clamped to 0 instead.
pub proof fn lemma_argmax_normalizes_to_one(d: BarChartData, i: int)
    requires
        d.wf(),
        0 <= i < d.values@.len(),
        d.values@[i] == spec_max(d.values@),
        spec_max(d.values@) != 0,
    ensures
        ratio_is_int(d.normalized_values@[i], 1),
{
    assert(normalized_entry_ok(d.normalized_values@[i], d.values@[i] as int, 0, spec_max(d.values@)));
}

} // verus!
