use chart_engine::ratio::{Ratio, RatioPoint};
use chart_engine::transform::CoordinateTransform;
use chart_engine::{ChartOptions, Extent2};

fn as_f64(r: &Ratio) -> f64 {
    r.num as f64 / r.den as f64
}

fn int_point(x: i64, y: i64) -> RatioPoint {
    RatioPoint {
        x: Ratio { num: x as i128, den: 1 },
        y: Ratio { num: y as i128, den: 1 },
    }
}

#[test]
fn extent_holds_its_fields() {
    let e = Extent2::new(500i64, 400i64);
    assert_eq!(e.width, 500);
    assert_eq!(e.height, 400);
    let options = ChartOptions { extent: e };
    assert_eq!(options.extent.width, 500);
}

#[test]
fn view_matrix_flips_and_translates() {
    let t = CoordinateTransform::view_matrix(500);
    assert_eq!(t.sx, 1);
    assert_eq!(t.sy, -1);
    assert_eq!(t.tx, 0);
    assert_eq!(t.ty, 500);
}

#[test]
fn view_matrix_maps_the_baseline_to_the_bottom() {
    let t = CoordinateTransform::view_matrix(500);
    let p = t.transform_point(&int_point(10, 20));
    assert_eq!(as_f64(&p.x), 10.0);
    assert_eq!(as_f64(&p.y), 480.0);
    let origin = t.transform_point(&int_point(0, 0));
    assert_eq!(as_f64(&origin.y), 500.0);
}

#[test]
fn composition_applies_inner_first() {
    let t = CoordinateTransform::translation(3, 4).compose(&CoordinateTransform::flip_y());
    // x' = x + 3, y' = -y + 4
    assert_eq!((t.sx, t.sy, t.tx, t.ty), (1, -1, 3, 4));
    let other_order = CoordinateTransform::flip_y().compose(&CoordinateTransform::translation(3, 4));
    // x' = x + 3, y' = -(y + 4) = -y - 4
    assert_eq!((other_order.sx, other_order.sy, other_order.tx, other_order.ty), (1, -1, 3, -4));
}

#[test]
fn identity_moves_nothing() {
    let t = CoordinateTransform::identity();
    let p = t.transform_point(&int_point(-7, 9));
    assert_eq!(as_f64(&p.x), -7.0);
    assert_eq!(as_f64(&p.y), 9.0);
}

#[test]
fn transform_keeps_exact_fractions() {
    let t = CoordinateTransform::view_matrix(500);
    let p = RatioPoint {
        x: Ratio { num: 510, den: 4 },
        y: Ratio { num: 175, den: 2 },
    };
    let q = t.transform_point(&p);
    assert_eq!(as_f64(&q.x), 127.5);
    assert_eq!(as_f64(&q.y), 412.5);
    assert_eq!(q.x.den, 4);
    assert_eq!(q.y.den, 2);
}
