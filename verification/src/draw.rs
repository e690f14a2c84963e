use vstd::prelude::*;
use crate::geometry::{Rect2Di, Size2Di, i32_range};

verus! {

broadcast use Size2Di::lemma_view_range, Rect2Di::lemma_view_range;

/// A scale factor `num / den` given as the two sizes it compares.
#[derive(Debug, Clone, Copy, PartialEq, Eq, Structural)]
pub struct ScaleRatio {
    pub num: i32,
    pub den: i32,
}

/// How to paint the drawing area for one draw event (after filling it
/// with the white background).
#[derive(Debug, Clone, Copy, PartialEq, Eq, Structural)]
pub enum DrawPlan {
    /// No rendered image: the background is all.
    Background,
    /// The rendered image fits the viewport: paint it whole, scaled by
    /// `num / den` when the drawing area's size differs from it
    /// (`None`: unscaled).
    Whole { scale: Option<ScaleRatio> },
    /// The rendered image is larger than the viewport: paint only the part
    /// under the clip rectangle, placed at its own position.
    Part(Rect2Di),
    /// The rendered image is larger than the viewport but nothing of it is
    /// under the clip rectangle: paint with the background source.
    Empty,
}

pub open spec fn min_int(a: int, b: int) -> int {
    if a <= b { a } else { b }
}

/// The part of a `pw`×`ph` image under the clip rectangle `(x, y, w, h)`:
/// the clip's extent cut to the image's, widened to the image's far edge
/// wherever the clip does not lie within the image.
pub open spec fn sub_rect_spec(clip: (int, int, int, int), pb: (int, int)) -> (int, int, int, int) {
    let (x, y, cw, ch) = clip;
    let (pw, ph) = pb;
    let w0 = min_int(cw, pw);
    let h0 = min_int(ch, ph);
    let w1 = if !(x >= 0 && x + w0 <= pw) { pw - x } else { w0 };
    let h1 = if !(y >= 0 && y + h0 <= ph) { ph - y } else { h0 };
    (x, y, w1, h1)
}

/// The `i32` arithmetic of the clip computation does not overflow.
pub open spec fn sub_rect_in_range(clip: (int, int, int, int), pb: (int, int)) -> bool {
    let (x, y, cw, ch) = clip;
    let (pw, ph) = pb;
    let w0 = min_int(cw, pw);
    let h0 = min_int(ch, ph);
    &&& (x >= 0 ==> i32_range(x + w0))
    &&& (!(x >= 0 && x + w0 <= pw) ==> i32_range(pw - x))
    &&& (y >= 0 ==> i32_range(y + h0))
    &&& (!(y >= 0 && y + h0 <= ph) ==> i32_range(ph - y))
}

pub open spec fn draw_plan_spec(
    clip: (int, int, int, int),
    da: (int, int),
    pb: Option<(int, int)>,
    vp: (int, int),
) -> DrawPlanSpec {
    match pb {
        None => DrawPlanSpec::Background,
        Some((pw, ph)) => {
            if pw <= vp.0 && ph <= vp.1 {
                if da.0 != pw || da.1 != ph {
                    if da.0 != pw {
                        DrawPlanSpec::Whole(Some((da.0, pw)))
                    } else {
                        DrawPlanSpec::Whole(Some((da.1, ph)))
                    }
                } else {
                    DrawPlanSpec::Whole(None)
                }
            } else {
                let r = sub_rect_spec(clip, (pw, ph));
                if r.2 > 0 && r.3 > 0 {
                    DrawPlanSpec::Part(r)
                } else {
                    DrawPlanSpec::Empty
                }
            }
        },
    }
}

/// A draw plan as integers.
pub enum DrawPlanSpec {
    Background,
    Whole(Option<(int, int)>),
    Part((int, int, int, int)),
    Empty,
}

pub open spec fn draw_plan_view(p: DrawPlan) -> DrawPlanSpec {
    match p {
        DrawPlan::Background => DrawPlanSpec::Background,
        DrawPlan::Whole { scale } => DrawPlanSpec::Whole(
            match scale {
                Some(r) => Some((r.num as int, r.den as int)),
                None => None,
            },
        ),
        DrawPlan::Part(r) => DrawPlanSpec::Part(r@),
        DrawPlan::Empty => DrawPlanSpec::Empty,
    }
}

/// Plans one draw of the drawing area of size `da_wh`, whose viewport has
/// size `vipo_wh`, for the rendered image of size `pixbuf_wh` (if any) and
/// the clip rectangle `clip`.
pub fn da_on_draw_plan(
    clip: Rect2Di,
    da_wh: Size2Di,
    pixbuf_wh: Option<Size2Di>,
    vipo_wh: Size2Di,
) -> (p: DrawPlan)
    requires
        pixbuf_wh matches Some(pb) ==> sub_rect_in_range(clip@, pb@),
    ensures
        draw_plan_view(p) == draw_plan_spec(
            clip@,
            da_wh@,
            match pixbuf_wh {
                Some(pb) => Some(pb@),
                None => None,
            },
            vipo_wh@,
        ),
{
    match pixbuf_wh {
        None => DrawPlan::Background,
        Some(pb) => {
            let pb_iw = pb.w();
            let pb_ih = pb.h();
            let da_iw = da_wh.w();
            let da_ih = da_wh.h();
            if pb_iw <= vipo_wh.w() && pb_ih <= vipo_wh.h() {
                if da_iw != pb_iw || da_ih != pb_ih {
                    if da_iw != pb_iw {
                        DrawPlan::Whole { scale: Some(ScaleRatio { num: da_iw, den: pb_iw }) }
                    } else {
                        DrawPlan::Whole { scale: Some(ScaleRatio { num: da_ih, den: pb_ih }) }
                    }
                } else {
                    DrawPlan::Whole { scale: None }
                }
            } else {
                let subpb_x = clip.x();
                let subpb_y = clip.y();
                let subpb_w = if clip.w() <= pb_iw { clip.w() } else { pb_iw };
                let subpb_h = if clip.h() <= pb_ih { clip.h() } else { pb_ih };
                let subpb_w = if !(subpb_x >= 0 && subpb_x + subpb_w <= pb_iw) {
                    pb_iw - subpb_x
                } else {
                    subpb_w
                };
                let subpb_h = if !(subpb_y >= 0 && subpb_y + subpb_h <= pb_ih) {
                    pb_ih - subpb_y
                } else {
                    subpb_h
                };
                if subpb_w > 0 && subpb_h > 0 {
                    DrawPlan::Part(Rect2Di::new(subpb_x, subpb_y, subpb_w, subpb_h))
                } else {
                    DrawPlan::Empty
                }
            }
        },
    }
}

/// A part that is painted lies inside the image whenever the clip
/// rectangle starts inside it: it ends at or before the image's far edges.
pub proof fn lemma_part_within_image(clip: (int, int, int, int), pb: (int, int))
    requires
        0 <= clip.0,
        0 <= clip.1,
    ensures
        sub_rect_spec(clip, pb).0 + sub_rect_spec(clip, pb).2 <= pb.0,
        sub_rect_spec(clip, pb).1 + sub_rect_spec(clip, pb).3 <= pb.1,
{
}


/// The rendered image is painted whole only when it fits the viewport in
/// both directions; when it is wider or taller than the viewport only the
/// part under the clip is painted (or nothing of it). A whole image whose
/// width differs from the drawing area's is scaled by the width ratio
/// (drawing-area width over image width); the height ratio is used only
/// when the widths agree; and it is left unscaled exactly when the drawing
/// area has the image's size.
pub proof fn lemma_draw_whole_only_when_fitting(
    clip: (int, int, int, int),
    da: (int, int),
    pb: (int, int),
    vp: (int, int),
)
    ensures
        draw_plan_spec(clip, da, Some(pb), vp) is Whole ==> pb.0 <= vp.0 && pb.1 <= vp.1,
        (pb.0 > vp.0 || pb.1 > vp.1) ==> (draw_plan_spec(clip, da, Some(pb), vp) is Part
            || draw_plan_spec(clip, da, Some(pb), vp) is Empty),
        (pb.0 <= vp.0 && pb.1 <= vp.1) ==> draw_plan_spec(clip, da, Some(pb), vp) is Whole,
        draw_plan_spec(clip, da, Some(pb), vp) matches DrawPlanSpec::Whole(Some(r)) ==> (
            if da.0 != pb.0 { r == (da.0, pb.0) } else { da.1 != pb.1 && r == (da.1, pb.1) }),
        draw_plan_spec(clip, da, Some(pb), vp) == DrawPlanSpec::Whole(None) <==> (
            pb.0 <= vp.0 && pb.1 <= vp.1 && da == pb),
        draw_plan_spec(clip, da, None, vp) == DrawPlanSpec::Background,
{
}


/// A clip rectangle that lies within the image is painted exactly: the
/// part is the clip itself; any part starts at the clip's corner.
pub proof fn lemma_part_is_clip_inside_image(clip: (int, int, int, int), pb: (int, int))
    ensures
        (0 <= clip.0 && 0 <= clip.1 && 0 <= clip.2 && 0 <= clip.3
            && clip.0 + clip.2 <= pb.0 && clip.1 + clip.3 <= pb.1) ==> sub_rect_spec(clip, pb) == clip,
        sub_rect_spec(clip, pb).0 == clip.0,
        sub_rect_spec(clip, pb).1 == clip.1,
{
}

} // verus!
