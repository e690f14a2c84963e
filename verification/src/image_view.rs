use vstd::prelude::*;
use crate::geometry::Size2Di;
use crate::zoom::{
    zoom_step, XReal, ZoomValue, ratio_wf, x_div, x_le, zoom_in_spec, zoom_out_spec, zoom_text,
    next_zoom_in_level, next_zoom_out_level, format_zoom_value,
};

verus! {

broadcast use Size2Di::lemma_view_range, Size2Di::lemma_view_injective;

/// Upper bound on the pixel count that a zoom level may ask the renderer
/// for, relative to the original image: 128 MiB of 4-byte pixels.
pub const MAX_PIXELS: i32 = 33554432;

/// `v` cut to the `i32` range.
pub open spec fn clamp_i32(v: int) -> int {
    if v < i32::MIN { i32::MIN as int } else if v > i32::MAX { i32::MAX as int } else { v }
}

/// Quotient rounded toward zero (`b > 0`).
pub open spec fn trunc_div(a: int, b: int) -> int {
    if a >= 0 { a / b } else { -((-a) / b) }
}

/// `o * v` for an integer `o`: exact for a fraction; with IEEE rules for
/// infinities and not-a-number (zero times an infinity is not a number).
pub open spec fn x_times(o: int, v: XReal) -> XReal {
    match v {
        XReal::Fin(r) => XReal::Fin((o * r.0, r.1)),
        XReal::PosInf => if o > 0 { XReal::PosInf } else if o < 0 { XReal::NegInf } else { XReal::NaN },
        XReal::NegInf => if o > 0 { XReal::NegInf } else if o < 0 { XReal::PosInf } else { XReal::NaN },
        XReal::NaN => XReal::NaN,
    }
}

/// A value brought to an `i32`: truncated toward zero and cut to the
/// `i32` range; an infinity gives the bound of its sign, not-a-number zero.
pub open spec fn x_to_i32(v: XReal) -> int {
    match v {
        XReal::Fin(r) => clamp_i32(trunc_div(r.0, r.1)),
        XReal::PosInf => i32::MAX as int,
        XReal::NegInf => i32::MIN as int,
        XReal::NaN => 0,
    }
}

/// An original dimension `o` scaled by the zoom `z`, cast to `i32`.
pub open spec fn scaled_dim(o: int, z: XReal) -> int {
    x_to_i32(x_times(o, z))
}

/// The zoom at which the image fills the drawing area: the width ratio when
/// it is at least the height ratio, else the height ratio. While the
/// original size is unknown (zero) the ratios are infinite or not a number.
pub open spec fn fit_level_spec(da: (int, int), orig: (int, int)) -> XReal {
    let lw = x_div(da.0, orig.0);
    let lh = x_div(da.1, orig.1);
    if x_le(lh, lw) { lw } else { lh }
}

/// The size the image is drawn at. With a zoom level, the original size
/// scaled by it. In fit mode, with `w = sh * ow / oh` and `h = sw * oh / ow`
/// for the scrolled window `sw`×`sh` and the original `ow`×`oh`: `(w, sh)`
/// when `w <= sw`, else `(sw, h)` when `h <= sh`, else the window's size.
pub open spec fn zoomed_spec(orig: (int, int), zoom: Option<XReal>, scrw: (int, int)) -> (int, int) {
    match zoom {
        Some(z) => (scaled_dim(orig.0, z), scaled_dim(orig.1, z)),
        None => {
            let (ow, oh) = orig;
            let (sw, sh) = scrw;
            let new_w = x_div(sh * ow, oh);
            let new_h = x_div(sw * oh, ow);
            if x_le(new_w, XReal::Fin((sw, 1))) {
                (x_to_i32(new_w), sh)
            } else if x_le(new_h, XReal::Fin((sh, 1))) {
                (sw, x_to_i32(new_h))
            } else {
                (sw, sh)
            }
        },
    }
}

/// The largest zoom within the pixel budget: `MAX_PIXELS / (w * h)`,
/// infinite for an empty original.
pub open spec fn available_spec(orig: (int, int)) -> XReal {
    x_div(MAX_PIXELS as int, orig.0 * orig.1)
}

/// Whether zoom `z` is within the pixel budget for an original of size
/// `orig`.
pub open spec fn allows_spec(z: XReal, orig: (int, int)) -> bool {
    x_le(z, available_spec(orig))
}

/// A render plan as pairs of integers.
pub enum PlanSpec {
    Nothing,
    RequestSize((int, int)),
    Render((int, int)),
}

pub open spec fn plan_view(p: RenderPlan) -> PlanSpec {
    match p {
        RenderPlan::Nothing => PlanSpec::Nothing,
        RenderPlan::RequestSize(s) => PlanSpec::RequestSize(s@),
        RenderPlan::Render(s) => PlanSpec::Render(s@),
    }
}

/// One rendering decision and the state after it. With an image loaded,
/// the zoomed size is compared with the size last rendered (equal: nothing
/// to do) and with the drawing area's requested size (different: request
/// the zoomed size first); otherwise the zoomed size is rendered and
/// remembered.
pub open spec fn render_plan_spec(m: ImageViewModel, scrw: (int, int), req: (int, int)) -> (PlanSpec, ImageViewModel) {
    if !m.has_source {
        (PlanSpec::Nothing, m)
    } else {
        let z = zoomed_spec(m.orig, m.zoom, scrw);
        if z == m.render {
            (PlanSpec::Nothing, m)
        } else if req != z {
            (PlanSpec::RequestSize(z), m)
        } else {
            (PlanSpec::Render(z), ImageViewModel { render: z, ..m })
        }
    }
}

/// The level that zooming in or out starts from: the zoom level, or in fit
/// mode the fit level.
pub open spec fn current_level_spec(m: ImageViewModel, da: (int, int)) -> XReal {
    match m.zoom {
        Some(z) => z,
        None => fit_level_spec(da, m.orig),
    }
}

/// The abstract state of the image view.
pub struct ImageViewModel {
    pub has_image_info: bool,
    pub has_source: bool,
    pub orig: (int, int),
    pub render: (int, int),
    pub zoom: Option<XReal>,
}

/// What the drawing area and the renderer should do next for the current
/// zoom: nothing, ask for a new widget size, or render at a size.
#[derive(Debug, Clone, Copy, PartialEq, Eq, Structural)]
pub enum RenderPlan {
    Nothing,
    RequestSize(Size2Di),
    Render(Size2Di),
}

/// First step of rendering: read the image's size, go on to render, or
/// nothing when no image is loaded.
#[derive(Debug, Clone, Copy, PartialEq, Eq, Structural)]
pub enum RenderStart {
    Nothing,
    ReadImageInfo,
    Render,
}

/// Outcome of the drawing area's size allocation in fit mode.
#[derive(Debug, Clone, Copy, PartialEq, Eq, Structural)]
pub enum FitCheck {
    /// The drawing area overflows the scrolled window: recompute the
    /// content size from this window size first.
    SetupContent(Size2Di),
    /// Go on with rendering.
    Render,
}

/// Widget updates that follow a new scrolled-window allocation.
#[derive(Debug, Clone, Copy, PartialEq, Eq, Structural)]
pub struct ContentPlan {
    /// New maximum content size of the scrolled window, when it changes.
    pub max_content: Option<Size2Di>,
    /// New size request of the drawing area, when it changes.
    pub da_request: Option<Size2Di>,
}

/// State of the image view, apart from its widgets and pixel data: whether
/// an image is loaded, its original size, the size last sent to the
/// renderer, and the zoom (`None` = fit to the window).
pub struct ImageView {
    has_image_info: bool,
    has_source: bool,
    orig_wh: Size2Di,
    render_wh: Size2Di,
    zoom_level: Option<ZoomValue>,
}

pub open spec fn opt_view(z: Option<ZoomValue>) -> Option<XReal> {
    match z {
        Some(l) => Some(l@),
        None => None,
    }
}

impl View for ImageView {
    type V = ImageViewModel;

    closed spec fn view(&self) -> ImageViewModel {
        ImageViewModel {
            has_image_info: self.has_image_info,
            has_source: self.has_source,
            orig: self.orig_wh@,
            render: self.render_wh@,
            zoom: opt_view(self.zoom_level),
        }
    }
}

fn clamp_to_i32(q: i64) -> (r: i32)
    ensures
        r == clamp_i32(q as int),
{
    if q < i32::MIN as i64 {
        i32::MIN
    } else if q > i32::MAX as i64 {
        i32::MAX
    } else {
        q as i32
    }
}

/// `a / b` rounded toward zero and saturated to `i32` (`b > 0`).
fn trunc_div_clamp(a: i64, b: i64) -> (r: i32)
    requires
        b > 0,
        -0x4000_0000_0000_0000 <= a <= 0x4000_0000_0000_0000,
    ensures
        r == clamp_i32(trunc_div(a as int, b as int)),
{
    let q: i64 = if a >= 0 {
        ((a as u64) / (b as u64)) as i64
    } else {
        -(((-a) as u64 / (b as u64)) as i64)
    };
    clamp_to_i32(q)
}

/// `a / b` brought to an `i32` (see `x_to_i32`).
fn quotient_to_i32(a: i64, b: i32) -> (r: i32)
    requires
        -0x4000_0000_0000_0000 <= a <= 0x4000_0000_0000_0000,
    ensures
        r == x_to_i32(x_div(a as int, b as int)),
{
    if b > 0 {
        trunc_div_clamp(a, b as i64)
    } else if b < 0 {
        trunc_div_clamp(-a, -(b as i64))
    } else if a > 0 {
        i32::MAX
    } else if a < 0 {
        i32::MIN
    } else {
        0
    }
}

/// Whether `a / b <= c`, with IEEE rules for a division by zero.
fn quotient_le(a: i64, b: i32, c: i32) -> (r: bool)
    requires
        -0x4000_0000_0000_0000 <= a <= 0x4000_0000_0000_0000,
    ensures
        r == x_le(x_div(a as int, b as int), XReal::Fin((c as int, 1int))),
{
    proof {
        assert(-0x4000_0000_0000_0000 <= (c as int) * (b as int) <= 0x4000_0000_0000_0000)
            by (nonlinear_arith)
            requires
                i32::MIN <= c <= i32::MAX,
                i32::MIN <= b <= i32::MAX,
        ;
    }
    if b > 0 {
        a <= (c as i64) * (b as i64)
    } else if b < 0 {
        proof {
            assert((c as int) * (-(b as int)) == -((c as int) * (b as int))) by (nonlinear_arith);
        }
        -a <= -((c as i64) * (b as i64))
    } else {
        a < 0
    }
}

proof fn lemma_mul_i32(x: int, y: int)
    by (nonlinear_arith)
    requires
        i32::MIN <= x <= i32::MAX,
        i32::MIN <= y <= i32::MAX,
    ensures
        -0x4000_0000_0000_0000 <= x * y <= 0x4000_0000_0000_0000,
{
}

/// `o` scaled by the zoom `z`, cast to `i32`.
fn scale_dim(o: i32, z: ZoomValue) -> (r: i32)
    ensures
        r == scaled_dim(o as int, z@),
{
    match z {
        ZoomValue::Finite(l) => {
            let num = l.numerator();
            let den = l.denominator();
            proof {
                assert(-0x4000_0000_0000_0000 <= (o as int) * (num as int) <= 0x4000_0000_0000_0000)
                    by (nonlinear_arith)
                    requires
                        i32::MIN <= o <= i32::MAX,
                        -0x8000_0000 <= num <= 0x8000_0000,
                ;
            }
            trunc_div_clamp((o as i64) * num, den)
        },
        ZoomValue::PosInf => {
            if o > 0 { i32::MAX } else if o < 0 { i32::MIN } else { 0 }
        },
        ZoomValue::NegInf => {
            if o > 0 { i32::MIN } else if o < 0 { i32::MAX } else { 0 }
        },
        ZoomValue::NaN => 0,
    }
}

impl ImageView {
    /// No image, fit mode.
    pub fn new() -> (v: Self)
        ensures
            !v@.has_image_info,
            !v@.has_source,
            v@.orig == (0int, 0int),
            v@.render == (0int, 0int),
            v@.zoom is None,
    {
        ImageView {
            has_image_info: false,
            has_source: false,
            orig_wh: Size2Di::new(0, 0),
            render_wh: Size2Di::new(0, 0),
            zoom_level: None,
        }
    }

    pub fn has_image_info(&self) -> (b: bool)
        ensures
            b == self@.has_image_info,
    {
        self.has_image_info
    }

    pub fn has_source(&self) -> (b: bool)
        ensures
            b == self@.has_source,
    {
        self.has_source
    }

    pub fn orig_wh(&self) -> (s: Size2Di)
        ensures
            s@ == self@.orig,
    {
        self.orig_wh
    }

    pub fn render_wh(&self) -> (s: Size2Di)
        ensures
            s@ == self@.render,
    {
        self.render_wh
    }

    /// The zoom level, `None` in fit mode.
    pub fn zoom_level(&self) -> (z: Option<ZoomValue>)
        ensures
            opt_view(z) == self@.zoom,
    {
        self.zoom_level
    }

    pub fn set_zoom_level(&mut self, level: ZoomValue)
        ensures
            final(self)@ == (ImageViewModel { zoom: Some(level@), ..old(self)@ }),
    {
        self.zoom_level = Some(level);
    }

    pub fn set_zoom_fit(&mut self)
        ensures
            final(self)@ == (ImageViewModel { zoom: None, ..old(self)@ }),
    {
        self.zoom_level = None;
    }

    pub fn is_zoom_fit(&self) -> (b: bool)
        ensures
            b == self@.zoom is None,
    {
        self.zoom_level.is_none()
    }

    /// A new image source replaces the old one: its size is unknown and
    /// nothing has been rendered of it yet. The zoom is kept.
    pub fn set_bytes_and_clear(&mut self)
        ensures
            final(self)@ == (ImageViewModel {
                has_source: true,
                has_image_info: false,
                orig: (0int, 0int),
                render: (0int, 0int),
                ..old(self)@
            }),
    {
        self.has_source = true;
        self.has_image_info = false;
        self.orig_wh = Size2Di::new(0, 0);
        self.render_wh = Size2Di::new(0, 0);
    }

    /// The decoder has measured the image.
    pub fn set_image_info(&mut self, width: i32, height: i32)
        ensures
            final(self)@ == (ImageViewModel {
                has_image_info: true,
                orig: (width as int, height as int),
                ..old(self)@
            }),
    {
        self.orig_wh = Size2Di::new(width, height);
        self.has_image_info = true;
    }

    /// The zoom at which the image fills a drawing area of size `da_wh`.
    pub fn zoom_fit_level(&self, da_wh: Size2Di) -> (z: ZoomValue)
        ensures
            z@ == fit_level_spec(da_wh@, self@.orig),
    {
        let lw = ZoomValue::quotient(da_wh.w(), self.orig_wh.w());
        let lh = ZoomValue::quotient(da_wh.h(), self.orig_wh.h());
        if lh.le(&lw) {
            lw
        } else {
            lh
        }
    }

    /// The size to draw the image at, given the scrolled window's size.
    pub fn zoomed_width_height(&self, scrw_wh: Size2Di) -> (s: Size2Di)
        ensures
            s@ == zoomed_spec(self@.orig, self@.zoom, scrw_wh@),
    {
        let ow = self.orig_wh.w();
        let oh = self.orig_wh.h();
        match self.zoom_level {
            Some(z) => Size2Di::new(scale_dim(ow, z), scale_dim(oh, z)),
            None => {
                let sw = scrw_wh.w();
                let sh = scrw_wh.h();
                proof {
                    lemma_mul_i32(sh as int, ow as int);
                    lemma_mul_i32(sw as int, oh as int);
                }
                let a: i64 = (sh as i64) * (ow as i64);
                let b: i64 = (sw as i64) * (oh as i64);
                if quotient_le(a, oh, sw) {
                    Size2Di::new(quotient_to_i32(a, oh), sh)
                } else if quotient_le(b, ow, sh) {
                    Size2Di::new(sw, quotient_to_i32(b, ow))
                } else {
                    Size2Di::new(sw, sh)
                }
            },
        }
    }

    /// Whether `level` keeps within the pixel budget for this image:
    /// `level <= MAX_PIXELS / (w * h)`, compared exactly.
    pub fn allows_zoom_level(&self, level: ZoomValue) -> (b: bool)
        ensures
            b == allows_spec(level@, self@.orig),
    {
        let ow = self.orig_wh.w() as i128;
        let oh = self.orig_wh.h() as i128;
        proof {
            assert(-0x4000_0000_0000_0000 <= (ow as int) * (oh as int) <= 0x4000_0000_0000_0000)
                by (nonlinear_arith)
                requires
                    i32::MIN <= ow <= i32::MAX,
                    i32::MIN <= oh <= i32::MAX,
            ;
        }
        let area: i128 = ow * oh;
        match level {
            ZoomValue::Finite(l) => {
                let num = l.numerator() as i128;
                let den = l.denominator() as i128;
                proof {
                    assert(-0x4000_0000_0000_0000_0000_0000 <= (num as int) * (area as int)
                        <= 0x4000_0000_0000_0000_0000_0000)
                        by (nonlinear_arith)
                        requires
                            -0x8000_0000 <= num <= 0x8000_0000,
                            -0x4000_0000_0000_0000 <= area <= 0x4000_0000_0000_0000,
                    ;
                    assert(0 < (MAX_PIXELS as int) * (den as int) <= 0x4000_0000_0000_0000)
                        by (nonlinear_arith)
                        requires
                            0 < den <= 0x8000_0000,
                    ;
                }
                let lhs: i128 = num * area;
                let rhs: i128 = (MAX_PIXELS as i128) * den;
                if area > 0 {
                    lhs <= rhs
                } else if area == 0 {
                    true
                } else {
                    proof {
                        assert((num as int) * (-area) == -((num as int) * (area as int)))
                            by (nonlinear_arith);
                        assert((-(MAX_PIXELS as int)) * (den as int) == -((MAX_PIXELS as int) * (den as int)))
                            by (nonlinear_arith);
                    }
                    -lhs <= -rhs
                }
            },
            ZoomValue::PosInf => area == 0,
            ZoomValue::NegInf => true,
            ZoomValue::NaN => false,
        }
    }

    /// First step of rendering: without the image's size, read it (when
    /// an image is loaded); with it, go on to render.
    pub fn spawn_render_image(&self) -> (r: RenderStart)
        ensures
            !self@.has_image_info && self@.has_source ==> r == RenderStart::ReadImageInfo,
            !self@.has_image_info && !self@.has_source ==> r == RenderStart::Nothing,
            self@.has_image_info ==> r == RenderStart::Render,
    {
        if !self.has_image_info {
            if self.has_source {
                RenderStart::ReadImageInfo
            } else {
                RenderStart::Nothing
            }
        } else {
            RenderStart::Render
        }
    }

    /// Decides whether to render, to request a new drawing-area size, or to
    /// do nothing; remembers the size sent to the renderer.
    pub fn spawn_render_image_0(&mut self, scrw_wh: Size2Di, requested_wh: Size2Di) -> (p: RenderPlan)
        ensures
            (plan_view(p), final(self)@) == render_plan_spec(old(self)@, scrw_wh@, requested_wh@),
    {
        if !self.has_source {
            return RenderPlan::Nothing;
        }
        let zoomed_wh = self.zoomed_width_height(scrw_wh);
        if zoomed_wh == self.render_wh {
            return RenderPlan::Nothing;
        }
        if requested_wh != zoomed_wh {
            return RenderPlan::RequestSize(zoomed_wh);
        }
        self.render_wh = zoomed_wh;
        RenderPlan::Render(zoomed_wh)
    }

    /// After the drawing area got a new size: in fit mode, when it no
    /// longer fits the scrolled window, the content size is set up again
    /// from the window size; otherwise rendering goes on.
    pub fn check_and_do_zoom_fit(&self, scrw_wh: Size2Di, da_wh: Size2Di) -> (r: FitCheck)
        ensures
            (self@.zoom is None && !(da_wh@.0 <= scrw_wh@.0 && da_wh@.1 <= scrw_wh@.1))
                ==> r == FitCheck::SetupContent(scrw_wh),
            !(self@.zoom is None && !(da_wh@.0 <= scrw_wh@.0 && da_wh@.1 <= scrw_wh@.1))
                ==> r == FitCheck::Render,
    {
        if self.is_zoom_fit() {
            if !(da_wh.w() <= scrw_wh.w() && da_wh.h() <= scrw_wh.h()) {
                return FitCheck::SetupContent(scrw_wh);
            }
        }
        FitCheck::Render
    }

    /// After the scrolled window got a new size: in fit mode, when the
    /// viewport's size differs from it, the content size is to be set up
    /// from the window size.
    pub fn scroll_window_allocated(&self, scrw_wh: Size2Di, vipo_wh: Size2Di) -> (r: Option<Size2Di>)
        ensures
            r == (if self@.zoom is None && scrw_wh@ != vipo_wh@ { Some(scrw_wh) } else { None::<Size2Di> }),
    {
        if self.is_zoom_fit() && scrw_wh != vipo_wh {
            Some(scrw_wh)
        } else {
            None
        }
    }

    /// Content setup for an allocated size `alc_wh`: the scrolled window's
    /// maximum content size becomes `alc_wh` unless it already is, and in
    /// fit mode the drawing area asks for the zoomed size unless it already
    /// has it.
    pub fn set_max_content_wh(
        &self,
        max_con_wh: Size2Di,
        alc_wh: Size2Di,
        da_wh: Size2Di,
        scrw_wh: Size2Di,
    ) -> (p: ContentPlan)
        ensures
            p.max_content == (if max_con_wh@ != alc_wh@ { Some(alc_wh) } else { None::<Size2Di> }),
            self@.zoom is None && da_wh@ != zoomed_spec(self@.orig, None, scrw_wh@)
                ==> (p.da_request matches Some(s) && s@ == zoomed_spec(self@.orig, None, scrw_wh@)),
            !(self@.zoom is None && da_wh@ != zoomed_spec(self@.orig, None, scrw_wh@))
                ==> p.da_request is None,
    {
        let max_content = if max_con_wh != alc_wh {
            Some(alc_wh)
        } else {
            None
        };
        let da_request = if self.is_zoom_fit() {
            let zoomed_wh = self.zoomed_width_height(scrw_wh);
            if da_wh != zoomed_wh {
                Some(zoomed_wh)
            } else {
                None
            }
        } else {
            None
        };
        ContentPlan { max_content, da_request }
    }

    /// Sets a chosen zoom level when the pixel budget allows it; tells
    /// whether it did.
    pub fn set_zoom_level_checked(&mut self, level: ZoomValue) -> (ok: bool)
        ensures
            ok == allows_spec(level@, old(self)@.orig),
            ok ==> final(self)@ == (ImageViewModel { zoom: Some(level@), ..old(self)@ }),
            !ok ==> final(self)@ == old(self)@,
    {
        let ok = self.allows_zoom_level(level);
        if ok {
            self.set_zoom_level(level);
        }
        ok
    }

    /// One step of zooming in from the current level (the fit level in fit
    /// mode), taken when the pixel budget allows the new level. Tells
    /// whether the zoom changed.
    pub fn zoom_in(&mut self, da_wh: Size2Di) -> (ok: bool)
        ensures
            ({
                let next = zoom_in_spec(current_level_spec(old(self)@, da_wh@));
                &&& ok == allows_spec(next, old(self)@.orig)
                &&& ok ==> final(self)@ == (ImageViewModel { zoom: Some(next), ..old(self)@ })
                &&& !ok ==> final(self)@ == old(self)@
            }),
    {
        let current = match self.zoom_level {
            Some(level) => level,
            None => self.zoom_fit_level(da_wh),
        };
        let next = next_zoom_in_level(current);
        self.set_zoom_level_checked(next)
    }

    /// One step of zooming out from the current level (the fit level in
    /// fit mode); always taken.
    pub fn zoom_out(&mut self, da_wh: Size2Di) -> (ok: bool)
        ensures
            ok,
            final(self)@ == (ImageViewModel {
                zoom: Some(zoom_out_spec(current_level_spec(old(self)@, da_wh@))),
                ..old(self)@
            }),
    {
        let current = match self.zoom_level {
            Some(level) => level,
            None => self.zoom_fit_level(da_wh),
        };
        let next = next_zoom_out_level(current);
        self.set_zoom_level(next);
        true
    }

    /// Switches to fit mode unless the zoom control already shows it; tells
    /// whether anything changed (and a render is due).
    pub fn zoom_fit(&mut self, toggle: &mut ZoomToggle) -> (changed: bool)
        ensures
            changed == !old(toggle)@,
            changed ==> final(self)@ == (ImageViewModel { zoom: None, ..old(self)@ }) && final(toggle)@,
            !changed ==> final(self)@ == old(self)@ && final(toggle)@ == old(toggle)@,
    {
        if toggle.is_zoom_fit() {
            return false;
        }
        toggle.set_zoom_fit();
        self.set_zoom_fit();
        true
    }

    /// The zoom entry's text: the fit level for a drawing area of size
    /// `da_wh`, as a percentage.
    pub fn zoom_entry_text(&self, da_wh: Size2Di) -> (s: String)
        ensures
            s@ == zoom_text(fit_level_spec(da_wh@, self@.orig)),
    {
        format_zoom_value(self.zoom_fit_level(da_wh))
    }
}

/// The zoom control's own fit flag (shown by its toggle button and menu
/// item); it starts in fit mode.
pub struct ZoomToggle {
    flg_zoom_fit: bool,
}

impl View for ZoomToggle {
    type V = bool;

    closed spec fn view(&self) -> bool {
        self.flg_zoom_fit
    }
}

impl ZoomToggle {
    pub fn new() -> (t: Self)
        ensures
            t@,
    {
        ZoomToggle { flg_zoom_fit: true }
    }

    pub fn is_zoom_fit(&self) -> (b: bool)
        ensures
            b == self@,
    {
        self.flg_zoom_fit
    }

    pub fn set_zoom_fit(&mut self)
        ensures
            final(self)@,
    {
        self.flg_zoom_fit = true;
    }

    pub fn unset_zoom_fit(&mut self)
        ensures
            !final(self)@,
    {
        self.flg_zoom_fit = false;
    }
}

} // verus!

verus! {

/// Once a size has been sent to the renderer, the same inputs plan nothing
/// more; and once the drawing area has the size it was asked for, that
/// size is rendered.
pub proof fn lemma_render_plan_settles(m: ImageViewModel, scrw: (int, int), req: (int, int))
    ensures
        render_plan_spec(m, scrw, req).0 matches PlanSpec::Render(_)
            ==> render_plan_spec(render_plan_spec(m, scrw, req).1, scrw, req).0 == PlanSpec::Nothing,
        render_plan_spec(m, scrw, req).0 matches PlanSpec::RequestSize(z)
            ==> render_plan_spec(m, scrw, z).0 == PlanSpec::Render(z),
{
}

proof fn lemma_trunc_div_le(a: int, b: int, c: int)
    requires
        b > 0,
        0 <= a,
        a <= c * b,
    ensures
        0 <= trunc_div(a, b) <= c,
{
    vstd::arithmetic::div_mod::lemma_div_pos_is_pos(a, b);
    assert(c * b == b * c) by (nonlinear_arith);
    vstd::arithmetic::div_mod::lemma_div_is_ordered(a, b * c, b);
    vstd::arithmetic::div_mod::lemma_div_multiples_vanish(c, b);
    assert(a / b <= (b * c) / b);
    assert((b * c) / b == c);
}

/// In fit mode the image is drawn as large as the scrolled window allows:
/// it fits inside the window and fills its width or its height.
pub proof fn lemma_fit_size_fills_window(orig: (int, int), scrw: (int, int))
    requires
        orig.0 > 0,
        orig.1 > 0,
        0 <= scrw.0 <= i32::MAX,
        0 <= scrw.1 <= i32::MAX,
    ensures
        0 <= zoomed_spec(orig, None, scrw).0 <= scrw.0,
        0 <= zoomed_spec(orig, None, scrw).1 <= scrw.1,
        zoomed_spec(orig, None, scrw).0 == scrw.0 || zoomed_spec(orig, None, scrw).1 == scrw.1,
{
    let (ow, oh) = orig;
    let (sw, sh) = scrw;
    assert(sh * ow >= 0) by (nonlinear_arith)
        requires
            sh >= 0,
            ow > 0,
    ;
    assert(sw * oh >= 0) by (nonlinear_arith)
        requires
            sw >= 0,
            oh > 0,
    ;
    assert((sh * ow) * 1 == sh * ow);
    assert((sw * oh) * 1 == sw * oh);
    if sh * ow <= sw * oh {
        assert(sw * oh == oh * sw) by (nonlinear_arith);
        lemma_trunc_div_le(sh * ow, oh, sw);
    } else {
        assert(sh * ow == ow * sh) by (nonlinear_arith);
        lemma_trunc_div_le(sw * oh, ow, sh);
    }
}

/// From a fixed zoom step below the largest one, zooming in (when the
/// pixel budget allows it) and then zooming out comes back to that step.
pub proof fn lemma_zoom_in_then_out(m: ImageViewModel, da: (int, int), i: int)
    requires
        0 <= i < 8,
        m.zoom == Some(XReal::Fin(zoom_step(i))),
    ensures
        ({
            let next = zoom_in_spec(current_level_spec(m, da));
            let m1 = ImageViewModel { zoom: Some(next), ..m };
            &&& next == XReal::Fin(zoom_step(i + 1))
            &&& zoom_out_spec(current_level_spec(m1, da)) == XReal::Fin(zoom_step(i))
        }),
{
    crate::zoom::lemma_zoom_in_out_round_trip(i);
}

/// While the image's size is unknown (0×0) and the drawing area has a
/// positive size, the fit level is plus infinity: zooming in keeps that
/// level, which the (infinite) pixel budget allows, and the image is then
/// drawn at 0×0; zooming out goes to the largest fixed step.
pub proof fn lemma_zoom_with_unknown_size(m: ImageViewModel, da: (int, int), scrw: (int, int))
    requires
        m.orig == (0int, 0int),
        m.zoom is None,
        da.0 > 0,
        da.1 > 0,
    ensures
        current_level_spec(m, da) == XReal::PosInf,
        zoom_in_spec(current_level_spec(m, da)) == XReal::PosInf,
        allows_spec(XReal::PosInf, m.orig),
        zoomed_spec(m.orig, Some(XReal::PosInf), scrw) == (0int, 0int),
        zoom_out_spec(current_level_spec(m, da)) == XReal::Fin(zoom_step(8)),
{
    crate::zoom::lemma_zoom_from_non_finite();
}


/// The pixel budget counts the image's pixels, width times height: for a
/// finite level `n / d` and an image of `w`×`h` pixels, the level is
/// allowed exactly when `n * w * h <= MAX_PIXELS * d`; and for any level
/// the answer is the same when width and height are swapped. No infinite
/// or undefined level is allowed for an image with pixels, while a level of
/// minus infinity compares below any budget.
pub proof fn lemma_budget_counts_pixels(n: int, d: int, w: int, h: int, z: XReal)
    requires
        d > 0,
        w > 0,
        h > 0,
    ensures
        allows_spec(XReal::Fin((n, d)), (w, h)) <==> n * w * h <= (MAX_PIXELS as int) * d,
        allows_spec(z, (w, h)) == allows_spec(z, (h, w)),
        !allows_spec(XReal::PosInf, (w, h)),
        !allows_spec(XReal::NaN, (w, h)),
        allows_spec(XReal::NegInf, (w, h)),
{
    assert(w * h > 0) by (nonlinear_arith)
        requires
            w > 0,
            h > 0,
    ;
    assert(n * (w * h) == n * w * h) by (nonlinear_arith);
    assert(w * h == h * w) by (nonlinear_arith);
}

/// In fit mode zooming starts from the fit level: the larger of the width
/// ratio (drawing-area width over image width) and the height ratio.
pub proof fn lemma_fit_mode_starts_from_fit_level(m: ImageViewModel, da: (int, int))
    requires
        m.zoom is None,
        m.orig.0 > 0,
        m.orig.1 > 0,
    ensures
        current_level_spec(m, da) matches XReal::Fin(r) && r.1 > 0
            && crate::zoom::ratio_le((da.0, m.orig.0), r)
            && crate::zoom::ratio_le((da.1, m.orig.1), r)
            && (r == (da.0, m.orig.0) || r == (da.1, m.orig.1)),
{
}

/// With an image loaded, nothing is planned exactly when the size it is to
/// be drawn at equals, in width and in height, the size last rendered; a
/// new size is rendered (and remembered) once the drawing area has it, and
/// requested from the drawing area before. Without an image nothing is
/// planned and nothing changes.
pub proof fn lemma_render_when_size_changed(m: ImageViewModel, scrw: (int, int), req: (int, int))
    ensures
        ({
            let z = zoomed_spec(m.orig, m.zoom, scrw);
            let p = render_plan_spec(m, scrw, req);
            &&& m.has_source ==> (p.0 == PlanSpec::Nothing <==> (z.0 == m.render.0 && z.1 == m.render.1))
            &&& m.has_source && (z.0 != m.render.0 || z.1 != m.render.1) && req == z
                ==> p == (PlanSpec::Render(z), ImageViewModel { render: z, ..m })
            &&& m.has_source && (z.0 != m.render.0 || z.1 != m.render.1) && req != z
                ==> p == (PlanSpec::RequestSize(z), m)
            &&& !m.has_source ==> p == (PlanSpec::Nothing, m)
        }),
{
}


proof fn lemma_floor_div_bounds(a: int, b: int, c: int)
    requires
        a >= 0,
        b > 0,
        a <= c * b,
    ensures
        0 <= a / b <= c,
        (a / b) * b <= a < (a / b + 1) * b,
{
    lemma_trunc_div_le(a, b, c);
    vstd::arithmetic::div_mod::lemma_fundamental_div_mod(a, b);
    assert((a / b + 1) * b == (a / b) * b + b) by (nonlinear_arith);
    assert(b * (a / b) == (a / b) * b) by (nonlinear_arith);
}

/// At a zoom level `n / d`, each side of the image is drawn at its original
/// length times the level, rounded down: for a side of `o` pixels the drawn
/// length `l` satisfies `l * d <= o * n < (l + 1) * d` (while that length
/// fits an `i32`).
pub proof fn lemma_zoomed_size_scales_original(orig: (int, int), n: int, d: int, scrw: (int, int))
    requires
        d > 0,
        n >= 0,
        orig.0 >= 0,
        orig.1 >= 0,
        orig.0 * n <= (i32::MAX as int) * d,
        orig.1 * n <= (i32::MAX as int) * d,
    ensures
        ({
            let z = zoomed_spec(orig, Some(XReal::Fin((n, d))), scrw);
            &&& 0 <= z.0 && z.0 * d <= orig.0 * n < (z.0 + 1) * d
            &&& 0 <= z.1 && z.1 * d <= orig.1 * n < (z.1 + 1) * d
        }),
{
    assert(orig.0 * n >= 0) by (nonlinear_arith)
        requires
            orig.0 >= 0,
            n >= 0,
    ;
    assert(orig.1 * n >= 0) by (nonlinear_arith)
        requires
            orig.1 >= 0,
            n >= 0,
    ;
    assert((i32::MAX as int) * d == d * (i32::MAX as int)) by (nonlinear_arith);
    lemma_floor_div_bounds(orig.0 * n, d, i32::MAX as int);
    lemma_floor_div_bounds(orig.1 * n, d, i32::MAX as int);
}

} // verus!
