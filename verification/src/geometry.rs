use vstd::prelude::*;
use crate::text::{dec_int, push_dec_i64, push_str};

verus! {

/// A point with integer coordinates.
#[derive(Debug, Clone, Copy, PartialEq, Eq, Structural)]
pub struct Point2Di {
    x: i32,
    y: i32,
}

/// A width and height in integer units.
#[derive(Debug, Clone, Copy, PartialEq, Eq, Structural)]
pub struct Size2Di {
    w: i32,
    h: i32,
}

/// An axis-aligned rectangle: origin and extent.
#[derive(Debug, Clone, Copy, PartialEq, Eq, Structural)]
pub struct Rect2Di {
    x: i32,
    y: i32,
    w: i32,
    h: i32,
}

impl View for Point2Di {
    type V = (int, int);

    closed spec fn view(&self) -> (int, int) {
        (self.x as int, self.y as int)
    }
}

impl View for Size2Di {
    type V = (int, int);

    closed spec fn view(&self) -> (int, int) {
        (self.w as int, self.h as int)
    }
}

impl View for Rect2Di {
    type V = (int, int, int, int);

    closed spec fn view(&self) -> (int, int, int, int) {
        (self.x as int, self.y as int, self.w as int, self.h as int)
    }
}

/// `v` is within the `i32` range.
pub open spec fn i32_range(v: int) -> bool {
    i32::MIN <= v <= i32::MAX
}

impl Point2Di {
    /// Two points are the same exactly when their views are.
    pub broadcast proof fn lemma_view_injective(p: Point2Di, q: Point2Di)
        ensures
            #![trigger p@, q@]
            p@ == q@ <==> p == q,
    {
    }

    pub fn new(x: i32, y: i32) -> (p: Self)
        ensures
            p@ == (x as int, y as int),
    {
        Self { x, y }
    }

    pub fn x(&self) -> (r: i32)
        ensures
            r == self@.0,
    {
        self.x
    }

    pub fn y(&self) -> (r: i32)
        ensures
            r == self@.1,
    {
        self.y
    }

    /// Text form `+X+Y`.
    pub fn to_string(&self) -> (s: String)
        ensures
            s@ == point_text(self@),
    {
        let mut s = String::new();
        push_str(&mut s, "+");
        push_dec_i64(&mut s, self.x as i64);
        push_str(&mut s, "+");
        push_dec_i64(&mut s, self.y as i64);
        proof { reveal_strlit("+"); }
        s
    }
}

/// `+X+Y`, both in decimal.
pub open spec fn point_text(p: (int, int)) -> Seq<char> {
    seq!['+'] + dec_int(p.0) + seq!['+'] + dec_int(p.1)
}

/// `WxH`, both in decimal.
pub open spec fn size_text(s: (int, int)) -> Seq<char> {
    dec_int(s.0) + seq!['x'] + dec_int(s.1)
}

/// `WxH+X+Y`, all in decimal.
pub open spec fn rect_text(r: (int, int, int, int)) -> Seq<char> {
    dec_int(r.2) + seq!['x'] + dec_int(r.3) + seq!['+'] + dec_int(r.0) + seq!['+'] + dec_int(r.1)
}

impl Size2Di {
    /// Values of this type have `i32` width and height.
    pub broadcast proof fn lemma_view_range(s: Size2Di)
        ensures
            #![trigger s@]
            i32_range(s@.0) && i32_range(s@.1),
    {
    }

    /// Two sizes are the same exactly when their views are.
    pub broadcast proof fn lemma_view_injective(s: Size2Di, t: Size2Di)
        ensures
            #![trigger s@, t@]
            s@ == t@ <==> s == t,
    {
    }

    pub fn new(w: i32, h: i32) -> (s: Self)
        ensures
            s@ == (w as int, h as int),
    {
        Self { w, h }
    }

    pub fn w(&self) -> (r: i32)
        ensures
            r == self@.0,
    {
        self.w
    }

    pub fn h(&self) -> (r: i32)
        ensures
            r == self@.1,
    {
        self.h
    }

    /// Text form `WxH`.
    pub fn to_string(&self) -> (s: String)
        ensures
            s@ == size_text(self@),
    {
        let mut s = String::new();
        push_dec_i64(&mut s, self.w as i64);
        push_str(&mut s, "x");
        push_dec_i64(&mut s, self.h as i64);
        proof { reveal_strlit("x"); }
        s
    }
}

impl Rect2Di {
    /// Values of this type have `i32` components.
    pub broadcast proof fn lemma_view_range(r: Rect2Di)
        ensures
            #![trigger r@]
            i32_range(r@.0) && i32_range(r@.1) && i32_range(r@.2) && i32_range(r@.3),
    {
    }

    /// Two rectangles are the same exactly when their views are.
    pub broadcast proof fn lemma_view_injective(r: Rect2Di, q: Rect2Di)
        ensures
            #![trigger r@, q@]
            r@ == q@ <==> r == q,
    {
    }

    pub fn new(x: i32, y: i32, w: i32, h: i32) -> (r: Self)
        ensures
            r@ == (x as int, y as int, w as int, h as int),
    {
        Self { x, y, w, h }
    }

    pub fn point(&self) -> (p: Point2Di)
        ensures
            p@ == (self@.0, self@.1),
    {
        Point2Di::from((self.x, self.y))
    }

    pub fn size(&self) -> (s: Size2Di)
        ensures
            s@ == (self@.2, self@.3),
    {
        Size2Di::from((self.w, self.h))
    }

    pub fn x(&self) -> (r: i32)
        ensures
            r == self@.0,
    {
        self.x
    }

    pub fn y(&self) -> (r: i32)
        ensures
            r == self@.1,
    {
        self.y
    }

    pub fn w(&self) -> (r: i32)
        ensures
            r == self@.2,
    {
        self.w
    }

    pub fn h(&self) -> (r: i32)
        ensures
            r == self@.3,
    {
        self.h
    }

    /// Text form `WxH+X+Y`.
    pub fn to_string(&self) -> (s: String)
        ensures
            s@ == rect_text(self@),
    {
        let mut s = String::new();
        push_dec_i64(&mut s, self.w as i64);
        push_str(&mut s, "x");
        push_dec_i64(&mut s, self.h as i64);
        push_str(&mut s, "+");
        push_dec_i64(&mut s, self.x as i64);
        push_str(&mut s, "+");
        push_dec_i64(&mut s, self.y as i64);
        proof {
            reveal_strlit("x");
            reveal_strlit("+");
        }
        s
    }
}

/// Equal views mean equal values, for each of the three types.
pub broadcast group group_geometry_views {
    Point2Di::lemma_view_injective,
    Size2Di::lemma_view_injective,
    Rect2Di::lemma_view_injective,
}

impl From<(i32, i32)> for Point2Di {
    fn from(a: (i32, i32)) -> (p: Self)
        ensures
            p@ == (a.0 as int, a.1 as int),
    {
        Point2Di { x: a.0, y: a.1 }
    }
}

impl vstd::std_specs::convert::FromSpecImpl<(i32, i32)> for Point2Di {
    open spec fn obeys_from_spec() -> bool {
        true
    }

    closed spec fn from_spec(a: (i32, i32)) -> Point2Di {
        Point2Di { x: a.0, y: a.1 }
    }
}

impl From<(i32, i32)> for Size2Di {
    fn from(a: (i32, i32)) -> (s: Self)
        ensures
            s@ == (a.0 as int, a.1 as int),
    {
        Size2Di { w: a.0, h: a.1 }
    }
}

impl vstd::std_specs::convert::FromSpecImpl<(i32, i32)> for Size2Di {
    open spec fn obeys_from_spec() -> bool {
        true
    }

    closed spec fn from_spec(a: (i32, i32)) -> Size2Di {
        Size2Di { w: a.0, h: a.1 }
    }
}

impl From<(i32, i32, i32, i32)> for Rect2Di {
    fn from(a: (i32, i32, i32, i32)) -> (r: Self)
        ensures
            r@ == (a.0 as int, a.1 as int, a.2 as int, a.3 as int),
    {
        Rect2Di { x: a.0, y: a.1, w: a.2, h: a.3 }
    }
}

impl vstd::std_specs::convert::FromSpecImpl<(i32, i32, i32, i32)> for Rect2Di {
    open spec fn obeys_from_spec() -> bool {
        true
    }

    closed spec fn from_spec(a: (i32, i32, i32, i32)) -> Rect2Di {
        Rect2Di { x: a.0, y: a.1, w: a.2, h: a.3 }
    }
}

impl From<((i32, i32), (i32, i32))> for Rect2Di {
    fn from(a: ((i32, i32), (i32, i32))) -> (r: Self)
        ensures
            r@ == (a.0.0 as int, a.0.1 as int, a.1.0 as int, a.1.1 as int),
    {
        Rect2Di { x: a.0.0, y: a.0.1, w: a.1.0, h: a.1.1 }
    }
}

impl vstd::std_specs::convert::FromSpecImpl<((i32, i32), (i32, i32))> for Rect2Di {
    open spec fn obeys_from_spec() -> bool {
        true
    }

    closed spec fn from_spec(a: ((i32, i32), (i32, i32))) -> Rect2Di {
        Rect2Di { x: a.0.0, y: a.0.1, w: a.1.0, h: a.1.1 }
    }
}

impl From<(Point2Di, Size2Di)> for Rect2Di {
    fn from(a: (Point2Di, Size2Di)) -> (r: Self)
        ensures
            r@ == (a.0@.0, a.0@.1, a.1@.0, a.1@.1),
    {
        Rect2Di { x: a.0.x, y: a.0.y, w: a.1.w, h: a.1.h }
    }
}

impl vstd::std_specs::convert::FromSpecImpl<(Point2Di, Size2Di)> for Rect2Di {
    open spec fn obeys_from_spec() -> bool {
        true
    }

    closed spec fn from_spec(a: (Point2Di, Size2Di)) -> Rect2Di {
        Rect2Di { x: a.0.x, y: a.0.y, w: a.1.w, h: a.1.h }
    }
}

} // verus!
