use aki_image_view_gtk::geometry::Size2Di;
use aki_image_view_gtk::image_view::{
    ContentPlan, FitCheck, ImageView, RenderPlan, RenderStart, ZoomToggle,
};
use aki_image_view_gtk::zoom::{ZoomLevel, ZoomValue};

fn sz(w: i32, h: i32) -> Size2Di {
    Size2Di::new(w, h)
}

fn parts(z: ZoomValue) -> (i64, i64) {
    match z {
        ZoomValue::Finite(l) => (l.numerator(), l.denominator()),
        _ => panic!("not a fraction"),
    }
}

fn pm(p: i32) -> ZoomValue {
    ZoomValue::Finite(ZoomLevel::per_mille(p))
}

fn loaded(w: i32, h: i32) -> ImageView {
    let mut v = ImageView::new();
    v.set_bytes_and_clear();
    v.set_image_info(w, h);
    v
}

#[test]
fn new_view_is_empty_and_fit() {
    let v = ImageView::new();
    assert!(v.is_zoom_fit());
    assert!(!v.has_image_info());
    assert!(!v.has_source());
    assert_eq!(v.orig_wh(), sz(0, 0));
    assert_eq!(v.render_wh(), sz(0, 0));
}

#[test]
fn loading_sequence_measures_then_renders() {
    let mut v = ImageView::new();
    assert_eq!(v.spawn_render_image(), RenderStart::Nothing);
    v.set_bytes_and_clear();
    assert_eq!(v.spawn_render_image(), RenderStart::ReadImageInfo);
    v.set_image_info(400, 300);
    assert_eq!(v.spawn_render_image(), RenderStart::Render);
    assert_eq!(v.orig_wh(), sz(400, 300));
}

#[test]
fn new_source_clears_size_but_keeps_zoom() {
    let mut v = loaded(400, 300);
    v.set_zoom_level(pm(2000));
    let _ = v.spawn_render_image_0(sz(100, 100), sz(800, 600));
    assert_eq!(v.render_wh(), sz(800, 600));
    v.set_bytes_and_clear();
    assert!(!v.has_image_info());
    assert_eq!(v.orig_wh(), sz(0, 0));
    assert_eq!(v.render_wh(), sz(0, 0));
    assert_eq!(parts(v.zoom_level().unwrap()), (2000, 1000));
}

#[test]
fn zoom_fit_level_is_larger_ratio() {
    let v = loaded(400, 200);
    // 800/400 = 2 vs 300/200 = 1.5
    assert_eq!(parts(v.zoom_fit_level(sz(800, 300))), (800, 400));
    // 400/400 = 1 vs 300/200 = 1.5
    assert_eq!(parts(v.zoom_fit_level(sz(400, 300))), (300, 200));
}

#[test]
fn zoom_fit_level_with_unknown_size() {
    let v = ImageView::new();
    // 10/0 = inf for both
    assert!(matches!(v.zoom_fit_level(sz(10, 10)), ZoomValue::PosInf));
    // 10/0 = inf, 0/0 = NaN: inf >= NaN is false, so NaN
    assert!(matches!(v.zoom_fit_level(sz(10, 0)), ZoomValue::NaN));
    assert!(matches!(v.zoom_fit_level(sz(0, 10)), ZoomValue::PosInf));
    assert!(matches!(v.zoom_fit_level(sz(0, 0)), ZoomValue::NaN));
}

#[test]
fn zoomed_size_with_level() {
    let mut v = loaded(400, 300);
    v.set_zoom_level(pm(666));
    // 400 * 0.666 = 266.4, 300 * 0.666 = 199.8
    assert_eq!(v.zoomed_width_height(sz(1, 1)), sz(266, 199));
    v.set_zoom_level(pm(16000));
    assert_eq!(v.zoomed_width_height(sz(1, 1)), sz(6400, 4800));
}

#[test]
fn zoomed_size_saturates() {
    let mut v = loaded(i32::MAX, 1);
    v.set_zoom_level(pm(16000));
    assert_eq!(v.zoomed_width_height(sz(1, 1)), sz(i32::MAX, 16));
}

#[test]
fn zoomed_size_fit_mode() {
    let v = loaded(400, 200);
    // wide window: height limits, 300 * 2 = 600 wide
    assert_eq!(v.zoomed_width_height(sz(1000, 300)), sz(600, 300));
    // tall window: width limits, 500 / 2 = 250 high
    assert_eq!(v.zoomed_width_height(sz(500, 1000)), sz(500, 250));
    // same aspect
    assert_eq!(v.zoomed_width_height(sz(800, 400)), sz(800, 400));
    // unknown original: 0/0 is NaN for both, so the window's size
    assert_eq!(ImageView::new().zoomed_width_height(sz(640, 480)), sz(640, 480));
    // one zero extent: sh*0/oh = 0 <= sw
    let flat = loaded(0, 5);
    assert_eq!(flat.zoomed_width_height(sz(640, 480)), sz(0, 480));
    // sh*ow/0 = inf, sw*0/ow = 0 <= sh
    let thin = loaded(5, 0);
    assert_eq!(thin.zoomed_width_height(sz(640, 480)), sz(640, 0));
    let odd = loaded(3, 7);
    // 100 * 3 / 7 = 42.85..
    assert_eq!(odd.zoomed_width_height(sz(100, 100)), sz(42, 100));
}

#[test]
fn pixel_budget() {
    // 33554432 pixels / (4096 * 4096) = 2
    let v = loaded(4096, 4096);
    assert!(v.allows_zoom_level(pm(2000)));
    assert!(!v.allows_zoom_level(pm(2001)));
    assert!(ImageView::new().allows_zoom_level(pm(16000)));
}

#[test]
fn set_zoom_level_checked_obeys_budget() {
    let mut v = loaded(4096, 4096);
    assert!(!v.set_zoom_level_checked(pm(4000)));
    assert!(v.is_zoom_fit());
    assert!(v.set_zoom_level_checked(pm(1000)));
    assert_eq!(parts(v.zoom_level().unwrap()), (1000, 1000));
}

#[test]
fn zoom_in_from_fit_level() {
    let mut v = loaded(400, 300);
    // fit level 600/400 = 1.5 -> next step 2
    assert!(v.zoom_in(sz(600, 300)));
    assert_eq!(parts(v.zoom_level().unwrap()), (2000, 1000));
    assert!(v.zoom_in(sz(600, 300)));
    assert_eq!(parts(v.zoom_level().unwrap()), (4000, 1000));
}

#[test]
fn zoom_in_refused_over_budget() {
    let mut v = loaded(4096, 4096);
    v.set_zoom_level(pm(2000));
    assert!(!v.zoom_in(sz(10, 10)));
    assert_eq!(parts(v.zoom_level().unwrap()), (2000, 1000));
}

#[test]
fn zoom_out_always_taken() {
    let mut v = loaded(4096, 4096);
    assert!(v.zoom_out(sz(2048, 1024)));
    // fit level 0.5 -> 0.25
    assert_eq!(parts(v.zoom_level().unwrap()), (250, 1000));
    v.set_zoom_level(pm(125));
    assert!(v.zoom_out(sz(1, 1)));
    assert_eq!(parts(v.zoom_level().unwrap()), (125, 1000));
}

#[test]
fn zoom_in_without_image_size_keeps_infinite_level() {
    let mut v = ImageView::new();
    assert!(v.zoom_in(sz(100, 100)));
    assert!(matches!(v.zoom_level(), Some(ZoomValue::PosInf)));
    // 0 * inf is NaN, drawn at 0x0
    assert_eq!(v.zoomed_width_height(sz(640, 480)), sz(0, 0));
    // once measured, the infinite level saturates
    v.set_image_info(10, 10);
    assert_eq!(v.zoomed_width_height(sz(640, 480)), sz(i32::MAX, i32::MAX));
    assert!(!v.allows_zoom_level(ZoomValue::PosInf));
}

#[test]
fn zoom_out_without_image_size_goes_to_largest_step() {
    let mut v = ImageView::new();
    assert!(v.zoom_out(sz(100, 100)));
    assert_eq!(parts(v.zoom_level().unwrap()), (16000, 1000));
}

#[test]
fn zoom_in_from_nan_fit_level_is_refused() {
    let mut v = ImageView::new();
    assert!(!v.zoom_in(sz(0, 0)));
    assert!(v.is_zoom_fit());
    assert!(v.zoom_out(sz(0, 0)));
    assert!(matches!(v.zoom_level(), Some(ZoomValue::NaN)));
    assert_eq!(v.zoomed_width_height(sz(640, 480)), sz(0, 0));
}

#[test]
fn zoom_fit_with_toggle() {
    let mut v = loaded(100, 100);
    let mut t = ZoomToggle::new();
    assert!(t.is_zoom_fit());
    assert!(!v.zoom_fit(&mut t));
    v.set_zoom_level(pm(2000));
    t.unset_zoom_fit();
    assert!(v.zoom_fit(&mut t));
    assert!(v.is_zoom_fit());
    assert!(t.is_zoom_fit());
}

#[test]
fn render_plan_requests_then_renders_then_settles() {
    let mut v = loaded(400, 200);
    let scrw = sz(1000, 300);
    assert_eq!(v.spawn_render_image_0(scrw, sz(0, 0)), RenderPlan::RequestSize(sz(600, 300)));
    assert_eq!(v.render_wh(), sz(0, 0));
    assert_eq!(v.spawn_render_image_0(scrw, sz(600, 300)), RenderPlan::Render(sz(600, 300)));
    assert_eq!(v.render_wh(), sz(600, 300));
    assert_eq!(v.spawn_render_image_0(scrw, sz(600, 300)), RenderPlan::Nothing);
    assert_eq!(ImageView::new().spawn_render_image_0(scrw, sz(0, 0)), RenderPlan::Nothing);
}

#[test]
fn fit_check_after_allocation() {
    let mut v = loaded(400, 200);
    assert_eq!(v.check_and_do_zoom_fit(sz(100, 100), sz(100, 100)), FitCheck::Render);
    assert_eq!(
        v.check_and_do_zoom_fit(sz(100, 100), sz(101, 100)),
        FitCheck::SetupContent(sz(100, 100))
    );
    v.set_zoom_level(pm(1000));
    assert_eq!(v.check_and_do_zoom_fit(sz(100, 100), sz(101, 100)), FitCheck::Render);
}

#[test]
fn scroll_window_allocation() {
    let mut v = loaded(400, 200);
    assert_eq!(v.scroll_window_allocated(sz(10, 10), sz(10, 10)), None);
    assert_eq!(v.scroll_window_allocated(sz(10, 10), sz(12, 10)), Some(sz(10, 10)));
    v.set_zoom_level(pm(1000));
    assert_eq!(v.scroll_window_allocated(sz(10, 10), sz(12, 10)), None);
}

#[test]
fn content_plan() {
    let mut v = loaded(400, 200);
    let p = v.set_max_content_wh(sz(0, 0), sz(1000, 300), sz(10, 10), sz(1000, 300));
    assert_eq!(p, ContentPlan { max_content: Some(sz(1000, 300)), da_request: Some(sz(600, 300)) });
    let p = v.set_max_content_wh(sz(1000, 300), sz(1000, 300), sz(600, 300), sz(1000, 300));
    assert_eq!(p, ContentPlan { max_content: None, da_request: None });
    v.set_zoom_level(pm(1000));
    let p = v.set_max_content_wh(sz(0, 0), sz(1000, 300), sz(10, 10), sz(1000, 300));
    assert_eq!(p, ContentPlan { max_content: Some(sz(1000, 300)), da_request: None });
}

#[test]
fn zoom_entry_text_shows_fit_level() {
    let v = loaded(400, 200);
    assert_eq!(v.zoom_entry_text(sz(600, 300)), "150.0%");
    assert_eq!(ImageView::new().zoom_entry_text(sz(600, 300)), "inf%");
    assert_eq!(ImageView::new().zoom_entry_text(sz(600, 0)), "NaN%");
}
