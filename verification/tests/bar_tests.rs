use chart_engine::bar::{bar_outline, BarGeometry};
use chart_engine::color::ColorPallet;
use chart_engine::data::{BarChartData, ChartError, Dataset, Record};
use chart_engine::ratio::Ratio;
use chart_engine::transform::CoordinateTransform;
use chart_engine::Extent2;

fn as_f64(r: &Ratio) -> f64 {
    r.num as f64 / r.den as f64
}

fn labels(names: &[&str]) -> Vec<String> {
    names.iter().map(|n| String::from(*n)).collect()
}

// The reference series 8.0, 3.5, 10.0, 5.0 held at a fixed-point scale of
// one half, so the values stay integers; every derived ratio is
// scale-invariant.
fn reference_series() -> BarChartData {
    BarChartData::new(labels(&["A", "B", "C", "D"]), vec![16, 7, 20, 10]).unwrap()
}

#[test]
fn four_bar_scenario() {
    let data = reference_series();
    let bars = data
        .bar_layout(&Extent2::new(500, 500), 10, ColorPallet::Material)
        .unwrap();
    assert_eq!(bars.len(), 4);
    // barWidth = (500 - 3 * 10) / 4 = 117.5, for every bar
    for b in &bars {
        assert_eq!(as_f64(&b.extent.width), 117.5);
    }
    // bar 1 starts at 1 * (117.5 + 10) = 127.5
    assert_eq!(as_f64(&bars[0].origin.x), 0.0);
    assert_eq!(as_f64(&bars[1].origin.x), 127.5);
    assert_eq!(as_f64(&bars[2].origin.x), 255.0);
    // heights follow the normalized values 0.8, 0.35, 1.0, 0.5
    assert_eq!(as_f64(&bars[0].extent.height), 400.0);
    assert_eq!(as_f64(&bars[1].extent.height), 175.0);
    assert_eq!(as_f64(&bars[2].extent.height), 500.0);
    assert_eq!(as_f64(&bars[3].extent.height), 250.0);
    // bars grow upward from the baseline
    assert_eq!(as_f64(&bars[0].origin.y), 100.0);
    assert_eq!(as_f64(&bars[2].origin.y), 0.0);
    // colors come from the Material table in order
    assert_eq!(bars[0].color, 0xf44336);
    assert_eq!(bars[3].color, 0x673ab7);
}

#[test]
fn bars_and_gaps_fill_the_width_exactly() {
    let data = reference_series();
    let bars = data
        .bar_layout(&Extent2::new(500, 500), 10, ColorPallet::Default)
        .unwrap();
    let total: f64 =
        bars.iter().map(|b| as_f64(&b.extent.width)).sum::<f64>() + 10.0 * (bars.len() - 1) as f64;
    assert!((total - 500.0).abs() < 1e-9);
}

#[test]
fn min_and_max_scan_the_series() {
    assert_eq!(BarChartData::min_and_max(&vec![3, -5, 7]), Ok((-5, 7)));
    assert_eq!(BarChartData::min_and_max(&vec![4]), Ok((4, 4)));
    assert_eq!(
        BarChartData::min_and_max(&vec![]),
        Err(ChartError::EmptyInput)
    );
}

#[test]
fn normalize_rescales_over_the_range() {
    let r = BarChartData::normalize(&vec![2, 4, 6], 0, 4);
    assert_eq!(as_f64(&r[0]), 0.5);
    assert_eq!(as_f64(&r[1]), 1.0);
    assert_eq!(as_f64(&r[2]), 1.5);
    let shifted = BarChartData::normalize(&vec![2, 4, 6], 2, 6);
    assert_eq!(as_f64(&shifted[0]), 0.0);
    assert_eq!(as_f64(&shifted[2]), 1.0);
}

#[test]
fn normalize_clamps_an_empty_range_to_zero() {
    let r = BarChartData::normalize(&vec![5, 5], 5, 5);
    assert_eq!(as_f64(&r[0]), 0.0);
    assert_eq!(as_f64(&r[1]), 0.0);
}

#[test]
fn new_series_normalizes_the_maximum_to_one() {
    let data = reference_series();
    assert_eq!(data.min_value, 7);
    assert_eq!(data.max_value, 20);
    let idx = data
        .values
        .iter()
        .position(|v| *v == data.max_value)
        .unwrap();
    assert_eq!(as_f64(&data.normalized_values[idx]), 1.0);
}

#[test]
fn replacing_values_recomputes_the_normalization() {
    let mut data = reference_series();
    data.set_values(vec![3, 9, 6, 1]).unwrap();
    assert_eq!(data.min_value, 1);
    assert_eq!(data.max_value, 9);
    assert_eq!(as_f64(&data.normalized_values[1]), 1.0);
    assert_eq!(as_f64(&data.normalized_values[0]), 3.0 / 9.0);
    // an empty replacement is refused and changes nothing
    assert_eq!(data.set_values(vec![]), Err(ChartError::EmptyInput));
    assert_eq!(data.values, vec![3, 9, 6, 1]);
    assert_eq!(data.max_value, 9);
}

#[test]
fn all_negative_series_normalizes_its_maximum_to_one() {
    let data = BarChartData::new(labels(&["a", "b"]), vec![-8, -2]).unwrap();
    assert_eq!(data.min_value, -8);
    assert_eq!(data.max_value, -2);
    assert_eq!(as_f64(&data.normalized_values[1]), 1.0);
    assert_eq!(as_f64(&data.normalized_values[0]), 4.0);
}

#[test]
fn replacing_the_domain_keeps_the_values() {
    let mut data = reference_series();
    data.set_domain(labels(&["w", "x", "y", "z"]));
    assert_eq!(data.domain, labels(&["w", "x", "y", "z"]));
    assert_eq!(data.values, vec![16, 7, 20, 10]);
    assert_eq!(data.max_value, 20);
}

#[test]
fn empty_series_is_refused() {
    assert!(matches!(
        BarChartData::new(vec![], vec![]),
        Err(ChartError::EmptyInput)
    ));
}

#[test]
fn negative_extent_is_refused() {
    let data = reference_series();
    assert_eq!(
        data.bar_layout(&Extent2::new(-1, 500), 10, ColorPallet::Default),
        Err(ChartError::InvalidExtent)
    );
    assert_eq!(
        data.bar_layout(&Extent2::new(500, -3), 10, ColorPallet::Default),
        Err(ChartError::InvalidExtent)
    );
}

#[test]
fn records_feed_a_bar_series() {
    // the plain record dataset, folded to values as the bar chart does
    let dataset = Dataset {
        records: vec![
            Record { value: 20 },
            Record { value: 60 },
            Record { value: 16 },
            Record { value: 30 },
            Record { value: 50 },
            Record { value: 30 },
        ],
    };
    let values: Vec<i64> = dataset.records.iter().map(|r| r.value).collect();
    let domain: Vec<String> = (0..values.len()).map(|i| i.to_string()).collect();
    let data = BarChartData::new(domain, values).unwrap();
    assert_eq!(data.min_value, 16);
    assert_eq!(data.max_value, 60);
    let bars = data
        .bar_layout(&Extent2::new(400, 400), 5, ColorPallet::Material)
        .unwrap();
    assert_eq!(bars.len(), 6);
    // barWidth = (400 - 5 * 5) / 6 = 62.5
    assert_eq!(as_f64(&bars[0].extent.width), 62.5);
    assert_eq!(as_f64(&bars[1].origin.x), 67.5);
}

#[test]
fn outline_flips_into_screen_space() {
    let data = reference_series();
    let bars = data
        .bar_layout(&Extent2::new(500, 500), 10, ColorPallet::Default)
        .unwrap();
    let t = CoordinateTransform::view_matrix(500);
    let b: &BarGeometry = &bars[1];
    // bar 1: origin (127.5, 325), extent 117.5 x 175 in data space
    assert_eq!(as_f64(&b.origin.y), 325.0);
    let outline = bar_outline(b, &t);
    assert_eq!(outline.len(), 4);
    // y-down screen space: y' = 500 - y
    assert_eq!(as_f64(&outline[0].x), 127.5);
    assert_eq!(as_f64(&outline[0].y), 175.0);
    assert_eq!(as_f64(&outline[1].y), 0.0);
    assert_eq!(as_f64(&outline[2].x), 245.0);
    assert_eq!(as_f64(&outline[2].y), 0.0);
    assert_eq!(as_f64(&outline[3].y), 175.0);
}
