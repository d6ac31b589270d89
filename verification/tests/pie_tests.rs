use chart_engine::color::ColorPallet;
use chart_engine::data::{ChartError, PieChartData, PieChartItem};
use chart_engine::pie::{highlighted_geometry, wedge_path, PathCommand, WedgeGeometry};
use chart_engine::ratio::Ratio;

fn as_f64(r: &Ratio) -> f64 {
    r.num as f64 / r.den as f64
}

fn item(name: &str, value: i64) -> PieChartItem {
    PieChartItem { name: String::from(name), value }
}

fn two_item_data() -> PieChartData {
    PieChartData {
        items: vec![item("A", 50), item("B", 30)],
        caption: String::from("two items"),
        color_pallet: ColorPallet::Material,
    }
}

#[test]
fn two_wedge_scenario() {
    let wedges = two_item_data().pie_layout(120).unwrap();
    assert_eq!(wedges.len(), 2);
    // sum = 80, A = 50 -> 62.5%, more than half the circle
    assert_eq!(as_f64(&wedges[0].percentage), 62.5);
    assert!(wedges[0].large_arc);
    // B = 30 -> 37.5%, minor sweep
    assert_eq!(as_f64(&wedges[1].percentage), 37.5);
    assert!(!wedges[1].large_arc);
    // colors come from the Material table in order
    assert_eq!(wedges[0].color, 0xf44336);
    assert_eq!(wedges[1].color, 0xe81e63);
    // wedge A covers the first 62.5% of the turn, starting at 12 o'clock
    assert_eq!(as_f64(&wedges[0].start_outer.fraction), 0.0);
    assert_eq!(as_f64(&wedges[0].end_outer.fraction), 0.625);
    assert_eq!(as_f64(&wedges[1].start_outer.fraction), 0.625);
    assert_eq!(as_f64(&wedges[1].end_outer.fraction), 1.0);
    // donut radii: outer as given, inner half of it
    assert_eq!(as_f64(&wedges[0].outer_radius), 120.0);
    assert_eq!(as_f64(&wedges[0].inner_radius), 60.0);
    assert_eq!(as_f64(&wedges[0].start_outer.radius), 120.0);
    assert_eq!(as_f64(&wedges[0].start_inner.radius), 60.0);
}

#[test]
fn percentages_sum_to_one_hundred() {
    let data = PieChartData {
        items: vec![
            item("A", 500),
            item("B", 30),
            item("C", 80),
            item("C", 10),
            item("C", 35),
            item("C", 50),
            item("C", 78),
        ],
        caption: String::from("seven items"),
        color_pallet: ColorPallet::OrangeFire,
    };
    let wedges = data.pie_layout(120).unwrap();
    let sum: f64 = wedges.iter().map(|w| as_f64(&w.percentage)).sum();
    assert!((sum - 100.0).abs() < 1e-9);
    // and the wedges come in input order
    let values: Vec<i64> = wedges.iter().map(|w| w.value).collect();
    assert_eq!(values, vec![500, 30, 80, 10, 35, 50, 78]);
}

#[test]
fn wedges_are_continuous_and_close_the_circle() {
    let data = PieChartData {
        items: vec![item("A", 1), item("B", 2), item("C", 3)],
        caption: String::from("three items"),
        color_pallet: ColorPallet::Default,
    };
    let wedges = data.pie_layout(100).unwrap();
    for i in 0..wedges.len() - 1 {
        assert_eq!(wedges[i].end_outer, wedges[i + 1].start_outer);
        assert_eq!(wedges[i].end_inner, wedges[i + 1].start_inner);
    }
    // the last wedge ends one full turn after the first one starts
    let first = &wedges[0].start_outer.fraction;
    let last = &wedges[wedges.len() - 1].end_outer.fraction;
    assert_eq!(as_f64(first), 0.0);
    assert_eq!(as_f64(last), 1.0);
}

#[test]
fn empty_pie_is_refused() {
    let data = PieChartData {
        items: vec![],
        caption: String::from("empty"),
        color_pallet: ColorPallet::Material,
    };
    assert_eq!(data.pie_layout(120), Err(ChartError::EmptyInput));
}

#[test]
fn zero_sum_pie_is_refused() {
    let data = PieChartData {
        items: vec![item("up", 5), item("down", -5)],
        caption: String::from("degenerate"),
        color_pallet: ColorPallet::Material,
    };
    assert_eq!(data.pie_layout(120), Err(ChartError::DegenerateDataset));
}

#[test]
fn single_item_covers_the_whole_circle() {
    let data = PieChartData {
        items: vec![item("all", 7)],
        caption: String::from("one item"),
        color_pallet: ColorPallet::DarkBlue,
    };
    let wedges = data.pie_layout(10).unwrap();
    assert_eq!(wedges.len(), 1);
    assert_eq!(as_f64(&wedges[0].percentage), 100.0);
    assert!(wedges[0].large_arc);
    assert_eq!(as_f64(&wedges[0].start_outer.fraction), 0.0);
    assert_eq!(as_f64(&wedges[0].end_outer.fraction), 1.0);
}

#[test]
fn negative_values_keep_their_shares() {
    // an all-negative series has a negative total; the shares are still
    // positive and well defined
    let data = PieChartData {
        items: vec![item("A", -50), item("B", -30)],
        caption: String::from("negative"),
        color_pallet: ColorPallet::Material,
    };
    let wedges = data.pie_layout(120).unwrap();
    assert_eq!(as_f64(&wedges[0].percentage), 62.5);
    assert_eq!(as_f64(&wedges[1].percentage), 37.5);
    assert!(wedges[0].large_arc);
    assert!(!wedges[1].large_arc);
}

#[test]
fn wedge_path_has_the_documented_shape() {
    let wedges = two_item_data().pie_layout(120).unwrap();
    let w: &WedgeGeometry = &wedges[0];
    let path = wedge_path(w);
    assert_eq!(path.len(), 5);
    assert_eq!(path[0], PathCommand::MoveTo(w.start_outer));
    assert_eq!(
        path[1],
        PathCommand::ArcTo {
            radius: w.outer_radius,
            large_arc: true,
            sweep_clockwise: true,
            end: w.end_outer,
        }
    );
    assert_eq!(path[2], PathCommand::LineTo(w.end_inner));
    assert_eq!(
        path[3],
        PathCommand::ArcTo {
            radius: w.inner_radius,
            large_arc: true,
            sweep_clockwise: false,
            end: w.start_inner,
        }
    );
    assert_eq!(path[4], PathCommand::LineTo(w.start_outer));
}

#[test]
fn hover_scales_a_wedge_by_the_fixed_factor() {
    let wedges = two_item_data().pie_layout(120).unwrap();
    let w = &wedges[0];
    let popped = highlighted_geometry(w, true);
    // 120 * 1.075 = 129, on every radius, outer and inner alike
    assert_eq!(as_f64(&popped.outer_radius), 129.0);
    assert_eq!(as_f64(&popped.inner_radius), 64.5);
    assert_eq!(as_f64(&popped.start_outer.radius), 129.0);
    assert_eq!(as_f64(&popped.end_inner.radius), 64.5);
    // fractions and bookkeeping are untouched
    assert_eq!(popped.start_outer.fraction, w.start_outer.fraction);
    assert_eq!(popped.percentage, w.percentage);
    assert_eq!(popped.color, w.color);
    assert_eq!(popped.large_arc, w.large_arc);
}

#[test]
fn idle_geometry_is_returned_unchanged() {
    let wedges = two_item_data().pie_layout(120).unwrap();
    let w = &wedges[1];
    assert_eq!(highlighted_geometry(w, false), *w);
}
