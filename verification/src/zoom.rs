use vstd::prelude::*;
use crate::text::{dec_nat, digit_char, push_dec_u64, push_str};

verus! {

/// A zoom factor held as an exact fraction `num / den` with `den > 0`.
///
/// The library computes zoom levels exactly where a viewer written with
/// `f32` would round them: the fixed steps are the decimal fractions
/// 0.125, 0.25, 0.5, 0.666, 1, 2, 4, 8, 16, and a fit factor is the
/// quotient of two pixel counts, kept as that quotient.
#[derive(Debug, Clone, Copy)]
pub struct ZoomLevel {
    num: i64,
    den: i64,
}

impl View for ZoomLevel {
    type V = (int, int);

    closed spec fn view(&self) -> (int, int) {
        (self.num as int, self.den as int)
    }
}

/// A fraction as the zoom module stores it: a numerator and a positive
/// denominator, each of magnitude at most 2^31 (a quotient of two `i32`
/// values brought to a positive denominator).
pub open spec fn ratio_wf(r: (int, int)) -> bool {
    &&& -0x8000_0000 <= r.0 <= 0x8000_0000
    &&& 0 < r.1 <= 0x8000_0000
}

/// A number computed from the viewer's sizes: an exact fraction (the
/// library uses exact fractions, never rounded values), or, where a size is
/// divided by zero, what IEEE arithmetic gives there: an infinity (a
/// non-zero amount divided by zero) or not a number (zero divided by zero).
pub enum XReal {
    Fin((int, int)),
    PosInf,
    NegInf,
    NaN,
}

/// `a / b` for integers: the exact fraction, brought to a positive
/// denominator; for `b == 0` the IEEE outcome, an infinity of the sign of
/// `a`, or not a number when `a` is zero too.
pub open spec fn x_div(a: int, b: int) -> XReal {
    if b > 0 {
        XReal::Fin((a, b))
    } else if b < 0 {
        XReal::Fin((-a, -b))
    } else if a > 0 {
        XReal::PosInf
    } else if a < 0 {
        XReal::NegInf
    } else {
        XReal::NaN
    }
}

/// `a < b` with IEEE rules for infinities: false whenever one is not a number.
pub open spec fn x_lt(a: XReal, b: XReal) -> bool {
    match (a, b) {
        (XReal::NaN, _) => false,
        (_, XReal::NaN) => false,
        (XReal::Fin(p), XReal::Fin(q)) => ratio_lt(p, q),
        (XReal::NegInf, XReal::NegInf) => false,
        (XReal::NegInf, _) => true,
        (XReal::PosInf, _) => false,
        (_, XReal::PosInf) => true,
        (_, XReal::NegInf) => false,
    }
}

/// `a <= b` with IEEE rules for infinities: false whenever one is not a number.
pub open spec fn x_le(a: XReal, b: XReal) -> bool {
    match (a, b) {
        (XReal::NaN, _) => false,
        (_, XReal::NaN) => false,
        (XReal::Fin(p), XReal::Fin(q)) => ratio_le(p, q),
        (XReal::NegInf, _) => true,
        (_, XReal::PosInf) => true,
        (XReal::PosInf, _) => false,
        (_, XReal::NegInf) => false,
    }
}

/// `a < b` as rational numbers (denominators positive).
pub open spec fn ratio_lt(a: (int, int), b: (int, int)) -> bool {
    a.0 * b.1 < b.0 * a.1
}

/// `a <= b` as rational numbers (denominators positive).
pub open spec fn ratio_le(a: (int, int), b: (int, int)) -> bool {
    a.0 * b.1 <= b.0 * a.1
}

/// Number of fixed zoom steps.
pub const ZOOM_LEVEL_COUNT: usize = 9;

/// The fixed zoom steps in per-mille, ascending.
pub open spec fn zoom_step_per_mille(i: int) -> int {
    if i == 0 { 125 }
    else if i == 1 { 250 }
    else if i == 2 { 500 }
    else if i == 3 { 666 }
    else if i == 4 { 1000 }
    else if i == 5 { 2000 }
    else if i == 6 { 4000 }
    else if i == 7 { 8000 }
    else { 16000 }
}

/// The fixed zoom step `i` as a fraction.
pub open spec fn zoom_step(i: int) -> (int, int) {
    (zoom_step_per_mille(i), 1000)
}

/// The first fixed step, from index `i` on, that is above `c`; `c` itself
/// when there is none.
pub open spec fn zoom_in_from(c: XReal, i: int) -> XReal
    decreases 9 - i,
{
    if i >= 9 || i < 0 {
        c
    } else if x_lt(c, XReal::Fin(zoom_step(i))) {
        XReal::Fin(zoom_step(i))
    } else {
        zoom_in_from(c, i + 1)
    }
}

/// The last fixed step, from index `i` down, that is below `c`; `c` itself
/// when there is none.
pub open spec fn zoom_out_from(c: XReal, i: int) -> XReal
    decreases i + 1,
{
    if i < 0 || i >= 9 {
        c
    } else if x_lt(XReal::Fin(zoom_step(i)), c) {
        XReal::Fin(zoom_step(i))
    } else {
        zoom_out_from(c, i - 1)
    }
}

/// The zoom after one "zoom in" from `c`: the smallest fixed step above `c`,
/// or `c` when there is none (at or above the largest step, infinite, or
/// not a number).
pub open spec fn zoom_in_spec(c: XReal) -> XReal {
    zoom_in_from(c, 0)
}

/// The zoom after one "zoom out" from `c`: the largest fixed step below `c`,
/// or `c` when there is none (at or below the smallest step, minus
/// infinity, or not a number).
pub open spec fn zoom_out_spec(c: XReal) -> XReal {
    zoom_out_from(c, 8)
}

/// The zoom shown as a percentage with one decimal: the level in per-mille,
/// rounded half up, then written `P.D%`.
pub open spec fn per_mille_rounded(z: (int, int)) -> int {
    (2000 * z.0 + z.1) / (2 * z.1)
}

pub open spec fn per_mille_text(p: int) -> Seq<char> {
    let a: nat = if p < 0 { (-p) as nat } else { p as nat };
    let body = dec_nat(a / 10) + seq!['.', digit_char(a % 10), '%'];
    if p < 0 { seq!['-'] + body } else { body }
}

/// The percentage text of a finite level.
pub open spec fn ratio_text(z: (int, int)) -> Seq<char> {
    per_mille_text(per_mille_rounded(z))
}

/// The percentage text of a level: as for a fraction, or `inf%`, `-inf%`,
/// `NaN%` as floating-point formatting writes the other values.
pub open spec fn zoom_text(z: XReal) -> Seq<char> {
    match z {
        XReal::Fin(r) => ratio_text(r),
        XReal::PosInf => seq!['i', 'n', 'f', '%'],
        XReal::NegInf => seq!['-', 'i', 'n', 'f', '%'],
        XReal::NaN => seq!['N', 'a', 'N', '%'],
    }
}

proof fn lemma_mul_i32_bound(x: int, y: int)
    by (nonlinear_arith)
    requires
        -0x8000_0000 <= x <= 0x8000_0000,
        -0x8000_0000 <= y <= 0x8000_0000,
    ensures
        -0x4000_0000_0000_0000 <= x * y <= 0x4000_0000_0000_0000,
{
}

impl ZoomLevel {
    #[verifier::type_invariant]
    spec fn inv(self) -> bool {
        ratio_wf((self.num as int, self.den as int))
    }

    /// The fraction `num / den`; `None` when `den` is not positive.
    pub fn from_ratio(num: i32, den: i32) -> (r: Option<ZoomLevel>)
        ensures
            den > 0 <==> r is Some,
            r matches Some(z) ==> z@ == (num as int, den as int),
    {
        if den > 0 {
            Some(ZoomLevel { num: num as i64, den: den as i64 })
        } else {
            None
        }
    }

    /// `p / 1000`.
    pub fn per_mille(p: i32) -> (z: ZoomLevel)
        ensures
            z@ == (p as int, 1000int),
    {
        ZoomLevel { num: p as i64, den: 1000 }
    }

    pub fn numerator(&self) -> (n: i64)
        ensures
            n == self@.0,
            ratio_wf(self@),
    {
        proof { use_type_invariant(self); }
        self.num
    }

    pub fn denominator(&self) -> (d: i64)
        ensures
            d == self@.1,
            ratio_wf(self@),
    {
        proof { use_type_invariant(self); }
        self.den
    }

    /// `self < other` as numbers.
    pub fn lt(&self, other: &ZoomLevel) -> (b: bool)
        ensures
            b == ratio_lt(self@, other@),
    {
        proof {
            use_type_invariant(self);
            use_type_invariant(other);
            lemma_mul_i32_bound(self.num as int, other.den as int);
            lemma_mul_i32_bound(other.num as int, self.den as int);
        }
        self.num * other.den < other.num * self.den
    }

    /// `self <= other` as numbers.
    pub fn le(&self, other: &ZoomLevel) -> (b: bool)
        ensures
            b == ratio_le(self@, other@),
    {
        proof {
            use_type_invariant(self);
            use_type_invariant(other);
            lemma_mul_i32_bound(self.num as int, other.den as int);
            lemma_mul_i32_bound(other.num as int, self.den as int);
        }
        self.num * other.den <= other.num * self.den
    }
}

/// The fixed zoom step `i`.
pub fn zoom_step_level(i: usize) -> (z: ZoomLevel)
    requires
        i < ZOOM_LEVEL_COUNT,
    ensures
        z@ == zoom_step(i as int),
{
    let p: i32 = if i == 0 { 125 }
        else if i == 1 { 250 }
        else if i == 2 { 500 }
        else if i == 3 { 666 }
        else if i == 4 { 1000 }
        else if i == 5 { 2000 }
        else if i == 6 { 4000 }
        else if i == 7 { 8000 }
        else { 16000 };
    ZoomLevel::per_mille(p)
}

/// A zoom value: an exact fraction, or an infinity or not-a-number where a
/// size is divided by zero (a fit level while the image's size is
/// unknown), following IEEE rules there.
#[derive(Debug, Clone, Copy)]
pub enum ZoomValue {
    Finite(ZoomLevel),
    PosInf,
    NegInf,
    NaN,
}

impl View for ZoomValue {
    type V = XReal;

    open spec fn view(&self) -> XReal {
        match self {
            ZoomValue::Finite(l) => XReal::Fin(l@),
            ZoomValue::PosInf => XReal::PosInf,
            ZoomValue::NegInf => XReal::NegInf,
            ZoomValue::NaN => XReal::NaN,
        }
    }
}

impl ZoomValue {
    /// `a / b`: exact, with IEEE rules for a division by zero.
    pub fn quotient(a: i32, b: i32) -> (v: ZoomValue)
        ensures
            v@ == x_div(a as int, b as int),
    {
        if b > 0 {
            ZoomValue::Finite(ZoomLevel { num: a as i64, den: b as i64 })
        } else if b < 0 {
            ZoomValue::Finite(ZoomLevel { num: -(a as i64), den: -(b as i64) })
        } else if a > 0 {
            ZoomValue::PosInf
        } else if a < 0 {
            ZoomValue::NegInf
        } else {
            ZoomValue::NaN
        }
    }

    /// `self < other` with IEEE rules for infinities and not-a-number.
    pub fn lt(&self, other: &ZoomValue) -> (b: bool)
        ensures
            b == x_lt(self@, other@),
    {
        match (self, other) {
            (ZoomValue::NaN, _) => false,
            (_, ZoomValue::NaN) => false,
            (ZoomValue::Finite(p), ZoomValue::Finite(q)) => p.lt(q),
            (ZoomValue::NegInf, ZoomValue::NegInf) => false,
            (ZoomValue::NegInf, _) => true,
            (ZoomValue::PosInf, _) => false,
            (_, ZoomValue::PosInf) => true,
            (_, ZoomValue::NegInf) => false,
        }
    }

    /// `self <= other` with IEEE rules for infinities and not-a-number.
    pub fn le(&self, other: &ZoomValue) -> (b: bool)
        ensures
            b == x_le(self@, other@),
    {
        match (self, other) {
            (ZoomValue::NaN, _) => false,
            (_, ZoomValue::NaN) => false,
            (ZoomValue::Finite(p), ZoomValue::Finite(q)) => p.le(q),
            (ZoomValue::NegInf, _) => true,
            (_, ZoomValue::PosInf) => true,
            (ZoomValue::PosInf, _) => false,
            (_, ZoomValue::NegInf) => false,
        }
    }
}

/// The level one "zoom in" step above `current_level`.
pub fn next_zoom_in_level(current_level: ZoomValue) -> (r: ZoomValue)
    ensures
        r@ == zoom_in_spec(current_level@),
{
    let mut i: usize = 0;
    while i < ZOOM_LEVEL_COUNT
        invariant
            i <= ZOOM_LEVEL_COUNT,
            zoom_in_from(current_level@, i as int) == zoom_in_spec(current_level@),
        decreases ZOOM_LEVEL_COUNT - i,
    {
        let level = ZoomValue::Finite(zoom_step_level(i));
        if current_level.lt(&level) {
            return level;
        }
        i += 1;
    }
    current_level
}

/// The level one "zoom out" step below `current_level`.
pub fn next_zoom_out_level(current_level: ZoomValue) -> (r: ZoomValue)
    ensures
        r@ == zoom_out_spec(current_level@),
{
    let mut i: usize = ZOOM_LEVEL_COUNT;
    while i > 0
        invariant
            i <= ZOOM_LEVEL_COUNT,
            zoom_out_from(current_level@, i as int - 1) == zoom_out_spec(current_level@),
        decreases i,
    {
        let level = ZoomValue::Finite(zoom_step_level(i - 1));
        if level.lt(&current_level) {
            return level;
        }
        i -= 1;
    }
    current_level
}

/// The text of the zoom entry for `value`: for a fraction, per-mille
/// rounded half up, written as a percentage with one decimal, e.g.
/// `66.6%`; `inf%`, `-inf%` or `NaN%` for the other values.
pub fn format_zoom_value(value: ZoomValue) -> (s: String)
    ensures
        s@ == zoom_text(value@),
{
    match value {
        ZoomValue::Finite(l) => format_ratio(l),
        ZoomValue::PosInf => {
            proof { reveal_strlit("inf%"); }
            String::from_str("inf%")
        },
        ZoomValue::NegInf => {
            proof { reveal_strlit("-inf%"); }
            String::from_str("-inf%")
        },
        ZoomValue::NaN => {
            proof { reveal_strlit("NaN%"); }
            String::from_str("NaN%")
        },
    }
}

fn format_ratio(value: ZoomLevel) -> (s: String)
    ensures
        s@ == ratio_text(value@),
{
    proof { use_type_invariant(value); }
    let n = value.num as i64;
    let d = value.den as i64;
    let x: i64 = 2000 * n + d;
    let y: i64 = 2 * d;
    // floor(x / y) and its magnitude
    let neg: bool;
    let a: u64;
    if x >= 0 {
        let q = (x as u64) / (y as u64);
        neg = false;
        a = q;
        proof {
            assert(q as int == x / y);
        }
    } else {
        let m = (-x) as u64;
        let c = (m + (y as u64) - 1) / (y as u64);
        proof {
            lemma_floor_of_negative(x as int, y as int);
        }
        if c == 0 {
            neg = false;
            a = 0;
        } else {
            neg = true;
            a = c;
        }
    }
    proof {
        let p = per_mille_rounded(value@);
        assert(p == x / y);
        assert(neg <==> p < 0);
        assert(a == if p < 0 { -p } else { p });
    }
    let mut s = String::new();
    if neg {
        push_str(&mut s, "-");
    }
    push_dec_u64(&mut s, a / 10);
    let last = a % 10;
    push_str(&mut s, ".");
    push_dec_u64(&mut s, last);
    push_str(&mut s, "%");
    proof {
        reveal_strlit("-");
        reveal_strlit(".");
        reveal_strlit("%");
        reveal_with_fuel(dec_nat, 1);
        assert(dec_nat(last as nat) == seq![digit_char(last as nat)]);
        let body = dec_nat((a / 10) as nat) + seq!['.', digit_char((a % 10) as nat), '%'];
        if neg {
            assert(s@ =~= seq!['-'] + body);
        } else {
            assert(s@ =~= body);
        }
    }
    s
}

proof fn lemma_floor_of_negative(x: int, y: int)
    requires
        x < 0,
        y > 0,
    ensures
        x / y == -(((-x) + y - 1) / y),
{
    let q = x / y;
    let r = x % y;
    vstd::arithmetic::div_mod::lemma_fundamental_div_mod(x, y);
    let m = -x;
    let c = (m + y - 1) / y;
    vstd::arithmetic::div_mod::lemma_fundamental_div_mod(m + y - 1, y);
    assert(m + y - 1 == (-q) * y + (y - 1 - r)) by (nonlinear_arith)
        requires
            x == y * q + r,
            m == -x,
    ;
    vstd::arithmetic::div_mod::lemma_fundamental_div_mod_converse_div(m + y - 1, y, -q, y - 1 - r);
}

/// The fixed steps are strictly increasing.
pub proof fn lemma_zoom_steps_ascending(i: int, j: int)
    requires
        0 <= i < j < 9,
    ensures
        ratio_lt(zoom_step(i), zoom_step(j)),
{
}

/// From a fraction, zooming in never lowers the level; it raises it
/// exactly when a fixed step lies above, and then lands on the smallest
/// such step.
pub proof fn lemma_zoom_in_is_next_step_above(c: (int, int))
    requires
        ratio_wf(c),
    ensures
        zoom_in_spec(XReal::Fin(c)) matches XReal::Fin(r) && ratio_le(c, r),
        ratio_lt(c, zoom_step(8)) ==> (zoom_in_spec(XReal::Fin(c)) matches XReal::Fin(r)
            && ratio_lt(c, r)),
        ratio_lt(c, zoom_step(8)) ==> exists|k: int|
            0 <= k < 9 && zoom_in_spec(XReal::Fin(c)) == XReal::Fin(zoom_step(k)),
        !ratio_lt(c, zoom_step(8)) ==> zoom_in_spec(XReal::Fin(c)) == XReal::Fin(c),
        forall|i: int| 0 <= i < 9 && ratio_lt(c, #[trigger] zoom_step(i))
            ==> x_le(zoom_in_spec(XReal::Fin(c)), XReal::Fin(zoom_step(i))),
{
    reveal_with_fuel(zoom_in_from, 10);
    assert(zoom_step(0) == (125int, 1000int));
    assert(zoom_step(8) == (16000int, 1000int));
}

/// From a fraction, zooming out never raises the level; it lowers it
/// exactly when a fixed step lies below, and then lands on the largest such
/// step.
pub proof fn lemma_zoom_out_is_next_step_below(c: (int, int))
    requires
        ratio_wf(c),
    ensures
        zoom_out_spec(XReal::Fin(c)) matches XReal::Fin(r) && ratio_le(r, c),
        ratio_lt(zoom_step(0), c) ==> (zoom_out_spec(XReal::Fin(c)) matches XReal::Fin(r)
            && ratio_lt(r, c)),
        ratio_lt(zoom_step(0), c) ==> exists|k: int|
            0 <= k < 9 && zoom_out_spec(XReal::Fin(c)) == XReal::Fin(zoom_step(k)),
        !ratio_lt(zoom_step(0), c) ==> zoom_out_spec(XReal::Fin(c)) == XReal::Fin(c),
        forall|i: int| 0 <= i < 9 && ratio_lt(#[trigger] zoom_step(i), c)
            ==> x_le(XReal::Fin(zoom_step(i)), zoom_out_spec(XReal::Fin(c))),
{
    reveal_with_fuel(zoom_out_from, 10);
    assert(zoom_step(0) == (125int, 1000int));
    assert(zoom_step(8) == (16000int, 1000int));
}

/// Zooming from a value that is not a fraction: from plus infinity, in
/// keeps it and out goes to the largest step; from minus infinity, in goes
/// to the smallest step and out keeps it; not-a-number stays.
pub proof fn lemma_zoom_from_non_finite()
    ensures
        zoom_in_spec(XReal::PosInf) == XReal::PosInf,
        zoom_out_spec(XReal::PosInf) == XReal::Fin(zoom_step(8)),
        zoom_in_spec(XReal::NegInf) == XReal::Fin(zoom_step(0)),
        zoom_out_spec(XReal::NegInf) == XReal::NegInf,
        zoom_in_spec(XReal::NaN) == XReal::NaN,
        zoom_out_spec(XReal::NaN) == XReal::NaN,
{
    reveal_with_fuel(zoom_in_from, 10);
    reveal_with_fuel(zoom_out_from, 10);
}

/// From a fixed step below the largest, zooming in and then out comes back
/// to the same step; from one above the smallest, out and then in does.
pub proof fn lemma_zoom_in_out_round_trip(i: int)
    requires
        0 <= i < 9,
    ensures
        i < 8 ==> zoom_out_spec(zoom_in_spec(XReal::Fin(zoom_step(i)))) == XReal::Fin(zoom_step(i)),
        i > 0 ==> zoom_in_spec(zoom_out_spec(XReal::Fin(zoom_step(i)))) == XReal::Fin(zoom_step(i)),
        i < 8 ==> zoom_in_spec(XReal::Fin(zoom_step(i))) == XReal::Fin(zoom_step(i + 1)),
        i > 0 ==> zoom_out_spec(XReal::Fin(zoom_step(i))) == XReal::Fin(zoom_step(i - 1)),
{
    reveal_with_fuel(zoom_in_from, 10);
    reveal_with_fuel(zoom_out_from, 10);
}

/// The largest zoom the zoom menu offers: 20.
pub open spec fn menu_max_zoom() -> (int, int) {
    (20, 1)
}

/// The zoom menu's entries: the fixed steps in ascending order, stopping
/// before the first one above the menu's maximum.
pub fn zoom_menu_levels() -> (v: Vec<ZoomLevel>)
    ensures
        v@.len() == ZOOM_LEVEL_COUNT,
        forall|i: int| 0 <= i < v@.len() ==> #[trigger] v@[i]@ == zoom_step(i) && ratio_le(zoom_step(i), menu_max_zoom()),
{
    let max = ZoomLevel { num: 20, den: 1 };
    let mut v: Vec<ZoomLevel> = Vec::new();
    let mut i: usize = 0;
    while i < ZOOM_LEVEL_COUNT
        invariant
            i <= ZOOM_LEVEL_COUNT,
            v@.len() == i,
            max@ == menu_max_zoom(),
            forall|k: int| 0 <= k < i ==> #[trigger] v@[k]@ == zoom_step(k) && ratio_le(zoom_step(k), menu_max_zoom()),
        ensures
            i <= ZOOM_LEVEL_COUNT,
            v@.len() == i,
            forall|k: int| 0 <= k < i ==> #[trigger] v@[k]@ == zoom_step(k) && ratio_le(zoom_step(k), menu_max_zoom()),
            i < ZOOM_LEVEL_COUNT ==> !ratio_le(zoom_step(i as int), menu_max_zoom()),
        decreases ZOOM_LEVEL_COUNT - i,
    {
        let level = zoom_step_level(i);
        if max.lt(&level) {
            break;
        }
        v.push(level);
        i += 1;
    }
    v
}

} // verus!
