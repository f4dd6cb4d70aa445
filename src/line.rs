use vstd::prelude::*;
use vstd::arithmetic::div_mod::{lemma_div_pos_is_pos, lemma_fundamental_div_mod};
use crate::drawable::Drawable;
use crate::geometry::{Color, Pixel, Point, ShapeError};
use crate::sink::Displayable;

verus! {

/// The distance between two integers.
pub open spec fn distance(a: int, b: int) -> int {
    if a <= b { b - a } else { a - b }
}

/// The number of steps of the walk from `p1` to `p2`: the larger of the
/// distances along the two axes.
pub open spec fn line_steps(p1: Point, p2: Point) -> int {
    let dx = distance(p1.x as int, p2.x as int);
    let dy = distance(p1.y as int, p2.y as int);
    if dx >= dy { dx } else { dy }
}

/// The coordinate after `k` of `n` equal steps from `a` towards `b`: the
/// exact offset `k * |b - a| / n` is rounded to the nearest integer, a half
/// being rounded away from `a`.
pub open spec fn walk(a: int, b: int, k: int, n: int) -> int {
    let off = (2 * k * distance(a, b) + n) / (2 * n);
    if a <= b { a + off } else { a - off }
}

/// The writes of a line from `p1` to `p2` in `color`.
///
/// Coinciding endpoints give the single pixel `p1`. Otherwise the walk
/// takes `line_steps(p1, p2)` steps and writes the pixel at the start of
/// each, so `p1` is written and `p2` is not.
pub open spec fn line_pixels(p1: Point, p2: Point, color: Color) -> Seq<Pixel> {
    let n = line_steps(p1, p2);
    if n == 0 {
        seq![Pixel { x: p1.x, y: p1.y, color }]
    } else {
        Seq::new(
            n as nat,
            |k: int|
                Pixel {
                    x: walk(p1.x as int, p2.x as int, k, n) as i32,
                    y: walk(p1.y as int, p2.y as int, k, n) as i32,
                    color,
                },
        )
    }
}

proof fn lemma_offset_bounds(k: int, n: int, d: int)
    requires
        0 <= k < n,
        0 <= d <= n,
        n <= 0x1_0000_0000,
    ensures
        0 <= 2 * k * d + n <= 0x4_0000_0000_0000_0000,
        0 <= (2 * k * d + n) / (2 * n) <= d,
{
    assert(0 <= k * d <= n * n) by (nonlinear_arith)
        requires 0 <= k < n, 0 <= d <= n;
    assert(2 * k * d == 2 * (k * d)) by (nonlinear_arith);
    assert(n * n <= 0x1_0000_0000 * 0x1_0000_0000) by (nonlinear_arith)
        requires 0 <= n <= 0x1_0000_0000;
    let x = 2 * k * d + n;
    let q = x / (2 * n);
    lemma_div_pos_is_pos(x, 2 * n);
    lemma_fundamental_div_mod(x, 2 * n);
    assert(x < 2 * n * (d + 1)) by (nonlinear_arith)
        requires 0 <= k < n, 0 <= d, x == 2 * k * d + n;
    assert(q <= d) by (nonlinear_arith)
        requires
            x == (2 * n) * q + x % (2 * n),
            0 <= x % (2 * n),
            x < 2 * n * (d + 1),
            n > 0;
}

proof fn lemma_line_pixel(p1: Point, p2: Point, color: Color, k: int)
    requires
        0 <= k < line_steps(p1, p2),
    ensures
        line_pixels(p1, p2, color).len() == line_steps(p1, p2),
        line_pixels(p1, p2, color)[k] == (Pixel {
            x: walk(p1.x as int, p2.x as int, k, line_steps(p1, p2)) as i32,
            y: walk(p1.y as int, p2.y as int, k, line_steps(p1, p2)) as i32,
            color,
        }),
{
}

/// The walk's coordinate for step `k` of `n`, computed without overflow.
fn walk_coord(a: i32, b: i32, k: u64, n: u64) -> (r: i32)
    requires
        k < n,
        n <= 0x1_0000_0000,
        distance(a as int, b as int) <= n,
    ensures
        r as int == walk(a as int, b as int, k as int, n as int),
{
    let d: u64 = if a <= b {
        (b as i64 - a as i64) as u64
    } else {
        (a as i64 - b as i64) as u64
    };
    proof {
        lemma_offset_bounds(k as int, n as int, d as int);
    }
    let off: u128 = (2 * (k as u128) * (d as u128) + n as u128) / (2 * (n as u128));
    if a <= b {
        (a as i64 + off as i64) as i32
    } else {
        (a as i64 - off as i64) as i32
    }
}

/// A straight segment between two points, drawn in one color that is
/// chosen when the line is made.
#[derive(Debug, Clone, Copy, PartialEq, Eq, Structural)]
pub struct Line {
    pub p1: Point,
    pub p2: Point,
    pub color: Color,
}

impl Line {
    /// A line from `p1` to `p2` with a random color, chosen once here.
    pub fn new(p1: &Point, p2: &Point) -> (l: Line)
        ensures
            l.p1 == *p1,
            l.p2 == *p2,
    {
        Line { p1: *p1, p2: *p2, color: Color::random() }
    }

    /// A line from `p1` to `p2` in the given color.
    pub fn with_color(p1: &Point, p2: &Point, color: Color) -> (l: Line)
        ensures
            l == (Line { p1: *p1, p2: *p2, color }),
    {
        Line { p1: *p1, p2: *p2, color }
    }

    /// A line between two random points of `[0, width) x [0, height)`.
    pub fn random(width: i32, height: i32) -> (r: Result<Line, ShapeError>)
        ensures
            r is Err <==> (width <= 0 || height <= 0),
            r is Err ==> r->Err_0 == ShapeError::InvalidBounds,
            r matches Ok(l) ==> 0 <= l.p1.x < width && 0 <= l.p1.y < height && 0 <= l.p2.x
                < width && 0 <= l.p2.y < height,
    {
        let p1 = Point::random(width, height)?;
        let p2 = Point::random(width, height)?;
        Ok(Line::new(&p1, &p2))
    }

    /// The writes of this line in its own color.
    pub open spec fn pixels(&self) -> Seq<Pixel> {
        line_pixels(self.p1, self.p2, self.color)
    }
}

impl Drawable for Line {
    open spec fn valid(&self) -> bool {
        true
    }

    fn is_valid(&self) -> bool {
        true
    }

    open spec fn render(&self, color: Color) -> Seq<Pixel> {
        line_pixels(self.p1, self.p2, color)
    }

    fn draw_with<D: Displayable>(&self, color: Color, sink: &mut D) {
        let x1 = self.p1.x;
        let y1 = self.p1.y;
        let x2 = self.p2.x;
        let y2 = self.p2.y;
        let dx: u64 = if x1 <= x2 {
            (x2 as i64 - x1 as i64) as u64
        } else {
            (x1 as i64 - x2 as i64) as u64
        };
        let dy: u64 = if y1 <= y2 {
            (y2 as i64 - y1 as i64) as u64
        } else {
            (y1 as i64 - y2 as i64) as u64
        };
        let n: u64 = if dx >= dy { dx } else { dy };
        let ghost all = line_pixels(self.p1, self.p2, color);
        if n == 0 {
            sink.display(x1, y1, color);
            assert(sink.written() =~= old(sink).written() + all);
            assert(all == self.render(color));
            return;
        }
        let mut k: u64 = 0;
        while k < n
            invariant
                0 <= k <= n,
                n == line_steps(self.p1, self.p2),
                n <= 0x1_0000_0000,
                x1 == self.p1.x && x2 == self.p2.x && y1 == self.p1.y && y2 == self.p2.y,
                distance(x1 as int, x2 as int) <= n,
                distance(y1 as int, y2 as int) <= n,
                all == line_pixels(self.p1, self.p2, color),
                all.len() == n,
                sink.written() == old(sink).written() + all.take(k as int),
            decreases n - k,
        {
            let x = walk_coord(x1, x2, k, n);
            let y = walk_coord(y1, y2, k, n);
            sink.display(x, y, color);
            proof {
                lemma_offset_bounds(k as int, n as int, distance(x1 as int, x2 as int));
                lemma_offset_bounds(k as int, n as int, distance(y1 as int, y2 as int));
            }
            proof {
                lemma_line_pixel(self.p1, self.p2, color, k as int);
            }
            assert(all[k as int] == Pixel { x, y, color });
            assert(all.take(k as int + 1) =~= all.take(k as int).push(all[k as int]));
            assert(sink.written() =~= old(sink).written() + all.take(k as int + 1));
            k = k + 1;
        }
        assert(all.take(n as int) =~= all);
        assert(sink.written() =~= old(sink).written() + all);
        assert(all == self.render(color));
    }

    /// Draws the line in the color it holds.
    fn draw<D: Displayable>(&self, sink: &mut D)
        ensures
            final(sink).written() == old(sink).written() + self.pixels(),
    {
        self.draw_with(self.color, sink);
    }
}

} // verus!
