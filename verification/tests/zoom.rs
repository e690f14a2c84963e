use aki_image_view_gtk::zoom::{
    format_zoom_value, next_zoom_in_level, next_zoom_out_level, zoom_menu_levels, zoom_step_level,
    ZoomLevel, ZoomValue, ZOOM_LEVEL_COUNT,
};

fn pm(p: i32) -> ZoomValue {
    ZoomValue::Finite(ZoomLevel::per_mille(p))
}

fn ratio(n: i32, d: i32) -> ZoomValue {
    ZoomValue::Finite(ZoomLevel::from_ratio(n, d).unwrap())
}

fn parts(z: ZoomValue) -> (i64, i64) {
    match z {
        ZoomValue::Finite(l) => (l.numerator(), l.denominator()),
        _ => panic!("not a fraction"),
    }
}

fn lparts(l: ZoomLevel) -> (i64, i64) {
    (l.numerator(), l.denominator())
}

#[test]
fn from_ratio_needs_positive_denominator() {
    assert!(ZoomLevel::from_ratio(1, 0).is_none());
    assert!(ZoomLevel::from_ratio(1, -2).is_none());
    assert_eq!(lparts(ZoomLevel::from_ratio(3, 4).unwrap()), (3, 4));
}

#[test]
fn comparisons_are_by_value() {
    let half = ratio(1, 2);
    assert!(half.le(&pm(500)));
    assert!(pm(500).le(&half));
    assert!(!half.lt(&pm(500)));
    assert!(pm(499).lt(&half));
}

#[test]
fn zoom_in_steps() {
    assert_eq!(parts(next_zoom_in_level(pm(100))), (125, 1000));
    assert_eq!(parts(next_zoom_in_level(pm(125))), (250, 1000));
    assert_eq!(parts(next_zoom_in_level(pm(600))), (666, 1000));
    assert_eq!(parts(next_zoom_in_level(pm(1000))), (2000, 1000));
    assert_eq!(parts(next_zoom_in_level(pm(8000))), (16000, 1000));
}

#[test]
fn zoom_in_at_top_keeps_level() {
    assert_eq!(parts(next_zoom_in_level(pm(16000))), (16000, 1000));
    let big = ratio(37, 2);
    assert_eq!(parts(next_zoom_in_level(big)), (37, 2));
}

#[test]
fn zoom_out_steps() {
    assert_eq!(parts(next_zoom_out_level(pm(20000))), (16000, 1000));
    assert_eq!(parts(next_zoom_out_level(pm(1000))), (666, 1000));
    assert_eq!(parts(next_zoom_out_level(pm(700))), (666, 1000));
    assert_eq!(parts(next_zoom_out_level(pm(250))), (125, 1000));
}

#[test]
fn zoom_out_at_bottom_keeps_level() {
    assert_eq!(parts(next_zoom_out_level(pm(125))), (125, 1000));
    let tiny = ratio(1, 10);
    assert_eq!(parts(next_zoom_out_level(tiny)), (1, 10));
}

#[test]
fn zoom_in_then_out_round_trip_on_steps() {
    for i in 0..ZOOM_LEVEL_COUNT - 1 {
        let l = ZoomValue::Finite(zoom_step_level(i));
        let up = next_zoom_in_level(l);
        assert_eq!(parts(up), lparts(zoom_step_level(i + 1)));
        assert_eq!(parts(next_zoom_out_level(up)), parts(l));
    }
}

#[test]
fn zoom_value_texts_of_steps() {
    let texts: Vec<String> = (0..ZOOM_LEVEL_COUNT)
        .map(|i| format_zoom_value(ZoomValue::Finite(zoom_step_level(i))))
        .collect();
    assert_eq!(
        texts,
        vec!["12.5%", "25.0%", "50.0%", "66.6%", "100.0%", "200.0%", "400.0%", "800.0%", "1600.0%"]
    );
}

#[test]
fn zoom_value_text_rounds_half_up() {
    // 1/3 = 333.33.. per mille
    assert_eq!(format_zoom_value(ratio(1, 3)), "33.3%");
    // 2/3 = 666.66.. per mille
    assert_eq!(format_zoom_value(ratio(2, 3)), "66.7%");
    // 0.0005 = 0.5 per mille rounds up to 1
    assert_eq!(format_zoom_value(ratio(1, 2000)), "0.1%");
    assert_eq!(format_zoom_value(ratio(0, 7)), "0.0%");
    assert_eq!(format_zoom_value(ratio(-1, 10)), "-10.0%");
    assert_eq!(format_zoom_value(ratio(800, 640)), "125.0%");
}

#[test]
fn zoom_menu_has_all_steps() {
    let v = zoom_menu_levels();
    assert_eq!(v.len(), ZOOM_LEVEL_COUNT);
    for (i, l) in v.iter().enumerate() {
        assert_eq!(lparts(*l), lparts(zoom_step_level(i)));
    }
}

#[test]
fn quotient_follows_float_division() {
    assert_eq!(parts(ZoomValue::quotient(3, 4)), (3, 4));
    assert_eq!(parts(ZoomValue::quotient(3, -4)), (-3, 4));
    assert_eq!(parts(ZoomValue::quotient(i32::MIN, -1)), (2147483648, 1));
    assert!(matches!(ZoomValue::quotient(5, 0), ZoomValue::PosInf));
    assert!(matches!(ZoomValue::quotient(-5, 0), ZoomValue::NegInf));
    assert!(matches!(ZoomValue::quotient(0, 0), ZoomValue::NaN));
}

#[test]
fn comparisons_with_infinities_and_nan() {
    let inf = ZoomValue::PosInf;
    let ninf = ZoomValue::NegInf;
    let nan = ZoomValue::NaN;
    assert!(inf.le(&inf));
    assert!(!inf.lt(&inf));
    assert!(pm(16000).lt(&inf));
    assert!(ninf.lt(&pm(125)));
    assert!(!nan.le(&nan));
    assert!(!nan.lt(&inf));
    assert!(!inf.le(&nan));
    // the same comparisons on f32
    assert!(f32::INFINITY <= f32::INFINITY);
    assert!(!(f32::NAN <= f32::NAN));
}

#[test]
fn zoom_from_non_finite_levels() {
    assert!(matches!(next_zoom_in_level(ZoomValue::PosInf), ZoomValue::PosInf));
    assert_eq!(parts(next_zoom_out_level(ZoomValue::PosInf)), (16000, 1000));
    assert_eq!(parts(next_zoom_in_level(ZoomValue::NegInf)), (125, 1000));
    assert!(matches!(next_zoom_out_level(ZoomValue::NegInf), ZoomValue::NegInf));
    assert!(matches!(next_zoom_in_level(ZoomValue::NaN), ZoomValue::NaN));
    assert!(matches!(next_zoom_out_level(ZoomValue::NaN), ZoomValue::NaN));
}

#[test]
fn zoom_value_text_of_non_finite_levels() {
    assert_eq!(format_zoom_value(ZoomValue::PosInf), "inf%");
    assert_eq!(format_zoom_value(ZoomValue::NegInf), "-inf%");
    assert_eq!(format_zoom_value(ZoomValue::NaN), "NaN%");
    // as floating-point formatting writes them
    assert_eq!(format!("{:.1}%", f32::INFINITY), "inf%");
    assert_eq!(format!("{:.1}%", f32::NEG_INFINITY), "-inf%");
    assert_eq!(format!("{:.1}%", f32::NAN), "NaN%");
}
