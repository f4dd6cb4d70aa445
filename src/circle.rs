use vstd::prelude::*;
use vstd::arithmetic::div_mod::{lemma_div_pos_is_pos, lemma_fundamental_div_mod};
use crate::drawable::Drawable;
use crate::geometry::{Color, Pixel, Point, ShapeError};
use crate::line::Line;
use crate::random::random_in;
use crate::shapes::{draw_lines, render_lines};
use crate::sink::Displayable;
use crate::trig::{sine_micro, sine_micro_of, SINE_SCALE};

verus! {

/// The number of segments of a circle's outline: one per degree from 0 to
/// 360 inclusive.
pub const CIRCLE_SEGMENTS: usize = 361;

/// The sine of `d` degrees in millionths, `0 <= d <= 90`.
pub open spec fn sine_at(d: int) -> int {
    sine_micro(d as u64) as int
}

/// `r * t` millionths, rounded to the nearest integer, a half upwards.
pub open spec fn scaled(r: int, t: int) -> int {
    (2 * r * t + 1_000_000) / 2_000_000
}

/// The horizontal offset from the center at `d` degrees, `0 <= d <= 360`:
/// `r * cos(d)` with the cosine read from the quarter-wave sine table, the
/// magnitude rounded to the nearest integer.
///
/// Each table entry is within half a millionth of the true value, so the
/// offset is within `1/2 + r / 2_000_000` of `r * cos(d)`: the nearest
/// pixel for a radius below about a million, and further off beyond that
/// (by up to about a thousand pixels at the largest `i32` radius).
pub open spec fn cos_offset(r: int, d: int) -> int {
    if d <= 90 {
        scaled(r, sine_at(90 - d))
    } else if d <= 180 {
        -scaled(r, sine_at(d - 90))
    } else if d <= 270 {
        -scaled(r, sine_at(270 - d))
    } else {
        scaled(r, sine_at(d - 270))
    }
}

/// The vertical offset from the center at `d` degrees, `0 <= d <= 360`:
/// `r * sin(d)`, rounded as `cos_offset` is and with the same accuracy.
pub open spec fn sin_offset(r: int, d: int) -> int {
    if d <= 90 {
        scaled(r, sine_at(d))
    } else if d <= 180 {
        scaled(r, sine_at(180 - d))
    } else if d <= 270 {
        -scaled(r, sine_at(d - 180))
    } else {
        -scaled(r, sine_at(360 - d))
    }
}

proof fn lemma_scaled_bounds(r: int, t: int)
    requires
        0 <= r <= 0x8000_0000,
        0 <= t <= 1_000_000,
    ensures
        0 <= 2 * r * t + 1_000_000 <= 0x1_0000_0000 * 2_000_000,
        0 <= scaled(r, t) <= r,
{
    assert(0 <= r * t <= 0x8000_0000 * 1_000_000) by (nonlinear_arith)
        requires 0 <= r <= 0x8000_0000, 0 <= t <= 1_000_000;
    assert(2 * r * t == 2 * (r * t)) by (nonlinear_arith);
    let x = 2 * r * t + 1_000_000;
    let q = x / 2_000_000;
    lemma_div_pos_is_pos(x, 2_000_000);
    lemma_fundamental_div_mod(x, 2_000_000);
    assert(r * t <= r * 1_000_000) by (nonlinear_arith)
        requires 0 <= r, t <= 1_000_000;
    assert(q <= r) by (nonlinear_arith)
        requires
            x == 2_000_000 * q + x % 2_000_000,
            0 <= x % 2_000_000,
            x <= 2_000_000 * r + 1_000_000;
}

/// Computes `scaled(r, t)` without overflow.
fn scaled_of(r: u64, t: u64) -> (s: u64)
    requires
        r <= 0x8000_0000,
        t <= SINE_SCALE,
    ensures
        s as int == scaled(r as int, t as int),
        s <= r,
{
    proof {
        lemma_scaled_bounds(r as int, t as int);
    }
    (2 * r * t + SINE_SCALE) / (2 * SINE_SCALE)
}

/// The offsets `(cos_offset(r, d), sin_offset(r, d))`.
fn offsets_at(r: u64, d: u64) -> (o: (i64, i64))
    requires
        r <= 0x8000_0000,
        d <= 360,
    ensures
        o.0 as int == cos_offset(r as int, d as int),
        o.1 as int == sin_offset(r as int, d as int),
        -(r as int) <= o.0 <= r,
        -(r as int) <= o.1 <= r,
{
    if d <= 90 {
        let c = scaled_of(r, sine_micro_of(90 - d));
        let s = scaled_of(r, sine_micro_of(d));
        (c as i64, s as i64)
    } else if d <= 180 {
        let c = scaled_of(r, sine_micro_of(d - 90));
        let s = scaled_of(r, sine_micro_of(180 - d));
        (-(c as i64), s as i64)
    } else if d <= 270 {
        let c = scaled_of(r, sine_micro_of(270 - d));
        let s = scaled_of(r, sine_micro_of(d - 180));
        (-(c as i64), -(s as i64))
    } else {
        let c = scaled_of(r, sine_micro_of(d - 270));
        let s = scaled_of(r, sine_micro_of(360 - d));
        (c as i64, -(s as i64))
    }
}

/// The outline of a circle, approximated by a closed polyline through one
/// sampled point per degree.
///
/// A radius of zero samples the center 361 times, so the outline is that
/// one pixel, written once per segment.
#[derive(Debug, Clone, Copy, PartialEq, Eq, Structural)]
pub struct Circle {
    pub center: Point,
    pub radius: i32,
}

impl Circle {
    pub fn new(p1: &Point, r: i32) -> (c: Circle)
        ensures
            c == (Circle { center: *p1, radius: r }),
    {
        Circle { center: *p1, radius: r }
    }

    /// A circle with a random center in `[0, width) x [0, height)` and a
    /// random radius in `[0, min(width, height))`.
    pub fn random(width: i32, height: i32) -> (r: Result<Circle, ShapeError>)
        ensures
            r is Err <==> (width <= 0 || height <= 0),
            r is Err ==> r->Err_0 == ShapeError::InvalidBounds,
            r matches Ok(c) ==> 0 <= c.center.x < width && 0 <= c.center.y < height && 0
                <= c.radius && c.radius < width && c.radius < height,
    {
        let center = Point::random(width, height)?;
        let bound = if width <= height { width } else { height };
        let radius = random_in(0, bound);
        Ok(Circle { center, radius })
    }

    /// Whether the radius is not negative and every sampled point of the
    /// outline has `i32` coordinates.
    pub open spec fn well_formed(&self) -> bool {
        &&& 0 <= self.radius
        &&& i32::MIN <= self.center.x - self.radius
        &&& self.center.x + self.radius <= i32::MAX
        &&& i32::MIN <= self.center.y - self.radius
        &&& self.center.y + self.radius <= i32::MAX
    }

    /// Tests `well_formed`.
    pub fn is_well_formed(&self) -> (b: bool)
        ensures
            b == self.well_formed(),
    {
        let r = self.radius as i64;
        let x = self.center.x as i64;
        let y = self.center.y as i64;
        0 <= r && i32::MIN as i64 <= x - r && x + r <= i32::MAX as i64 && i32::MIN as i64 <= y
            - r && y + r <= i32::MAX as i64
    }

    /// The sampled point at `d` degrees.
    pub open spec fn vertex(&self, d: int) -> Point {
        Point {
            x: (self.center.x + cos_offset(self.radius as int, d)) as i32,
            y: (self.center.y + sin_offset(self.radius as int, d)) as i32,
        }
    }

    /// The segments of the outline, all in `color`: segment `i` joins the
    /// point sampled at `i - 1` degrees (at 0 degrees for the first) to the
    /// one sampled at `i` degrees.
    pub open spec fn segment_lines(&self, color: Color) -> Seq<Line> {
        Seq::new(
            CIRCLE_SEGMENTS as nat,
            |i: int|
                Line {
                    p1: self.vertex(if i == 0 { 0 } else { i - 1 }),
                    p2: self.vertex(i),
                    color,
                },
        )
    }

    fn vertex_at(&self, d: u64) -> (p: Point)
        requires
            self.well_formed(),
            d <= 360,
        ensures
            p == self.vertex(d as int),
    {
        let o = offsets_at(self.radius as u64, d);
        Point { x: (self.center.x as i64 + o.0) as i32, y: (self.center.y as i64 + o.1) as i32 }
    }

    /// The segments of the outline, all in `color`.
    pub fn segments(&self, color: Color) -> (r: Vec<Line>)
        requires
            self.well_formed(),
        ensures
            r@ == self.segment_lines(color),
    {
        let mut r: Vec<Line> = Vec::new();
        let mut prev = self.vertex_at(0);
        let mut d: u64 = 0;
        while d <= 360
            invariant
                self.well_formed(),
                d <= 361,
                r@.len() == d,
                d > 0 ==> prev == self.vertex(d - 1),
                d == 0 ==> prev == self.vertex(0),
                forall|i: int| 0 <= i < d ==> #[trigger] r@[i] == self.segment_lines(color)[i],
            decreases 361 - d,
        {
            let cur = self.vertex_at(d);
            r.push(Line { p1: prev, p2: cur, color });
            prev = cur;
            d = d + 1;
        }
        assert(r@ =~= self.segment_lines(color));
        r
    }
}

impl Drawable for Circle {
    open spec fn valid(&self) -> bool {
        self.well_formed()
    }

    fn is_valid(&self) -> bool {
        self.is_well_formed()
    }

    open spec fn render(&self, color: Color) -> Seq<Pixel> {
        render_lines(self.segment_lines(color))
    }

    fn draw_with<D: Displayable>(&self, color: Color, sink: &mut D) {
        let segments = self.segments(color);
        draw_lines(&segments, sink);
    }
}

} // verus!
