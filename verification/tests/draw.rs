use aki_image_view_gtk::draw::{da_on_draw_plan, DrawPlan, ScaleRatio};
use aki_image_view_gtk::geometry::{Rect2Di, Size2Di};

fn sz(w: i32, h: i32) -> Size2Di {
    Size2Di::new(w, h)
}

#[test]
fn no_image_draws_background() {
    let p = da_on_draw_plan(Rect2Di::new(0, 0, 10, 10), sz(10, 10), None, sz(10, 10));
    assert_eq!(p, DrawPlan::Background);
}

#[test]
fn whole_image_unscaled() {
    let p = da_on_draw_plan(Rect2Di::new(0, 0, 100, 50), sz(100, 50), Some(sz(100, 50)), sz(200, 100));
    assert_eq!(p, DrawPlan::Whole { scale: None });
}

#[test]
fn whole_image_scaled_by_width_then_height() {
    let p = da_on_draw_plan(Rect2Di::new(0, 0, 0, 0), sz(150, 50), Some(sz(100, 50)), sz(200, 100));
    assert_eq!(p, DrawPlan::Whole { scale: Some(ScaleRatio { num: 150, den: 100 }) });
    let p = da_on_draw_plan(Rect2Di::new(0, 0, 0, 0), sz(100, 80), Some(sz(100, 50)), sz(200, 100));
    assert_eq!(p, DrawPlan::Whole { scale: Some(ScaleRatio { num: 80, den: 50 }) });
}

#[test]
fn part_of_large_image_under_clip() {
    let p = da_on_draw_plan(Rect2Di::new(10, 20, 30, 40), sz(1000, 1000), Some(sz(1000, 1000)), sz(100, 100));
    assert_eq!(p, DrawPlan::Part(Rect2Di::new(10, 20, 30, 40)));
}

#[test]
fn part_cut_at_image_edge() {
    // clip runs past the right edge: width becomes the rest of the image
    let p = da_on_draw_plan(Rect2Di::new(900, 0, 300, 50), sz(1000, 1000), Some(sz(1000, 500)), sz(100, 100));
    assert_eq!(p, DrawPlan::Part(Rect2Di::new(900, 0, 100, 50)));
}

#[test]
fn clip_outside_image_paints_nothing_new() {
    let p = da_on_draw_plan(Rect2Di::new(1200, 0, 50, 50), sz(2000, 2000), Some(sz(1000, 500)), sz(100, 100));
    assert_eq!(p, DrawPlan::Empty);
}
