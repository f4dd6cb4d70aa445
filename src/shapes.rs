use vstd::prelude::*;
use crate::drawable::Drawable;
use crate::geometry::{Color, Pixel, Point};
use crate::line::Line;
use crate::sink::Displayable;

verus! {

/// The writes of a sequence of lines, each in its own color, one line after
/// the other.
pub open spec fn render_lines(lines: Seq<Line>) -> Seq<Pixel>
    decreases lines.len(),
{
    if lines.len() == 0 {
        Seq::empty()
    } else {
        render_lines(lines.drop_last()) + lines.last().pixels()
    }
}

/// Draws each line of `lines` in turn, each in its own color.
pub fn draw_lines<D: Displayable>(lines: &Vec<Line>, sink: &mut D)
    ensures
        final(sink).written() == old(sink).written() + render_lines(lines@),
{
    let mut i: usize = 0;
    while i < lines.len()
        invariant
            0 <= i <= lines@.len(),
            sink.written() == old(sink).written() + render_lines(lines@.take(i as int)),
        decreases lines@.len() - i,
    {
        let line = &lines[i];
        line.draw_with(line.color, sink);
        assert(lines@.take(i as int + 1).drop_last() =~= lines@.take(i as int));
        assert(lines@.take(i as int + 1).last() == lines@[i as int]);
        assert(sink.written() =~= old(sink).written() + render_lines(lines@.take(i as int + 1)));
        i = i + 1;
    }
    assert(lines@.take(i as int) =~= lines@);
}

impl Drawable for Point {
    open spec fn valid(&self) -> bool {
        true
    }

    fn is_valid(&self) -> bool {
        true
    }

    open spec fn render(&self, color: Color) -> Seq<Pixel> {
        seq![Pixel { x: self.x, y: self.y, color }]
    }

    fn draw_with<D: Displayable>(&self, color: Color, sink: &mut D) {
        sink.display(self.x, self.y, color);
        assert(sink.written() =~= old(sink).written() + self.render(color));
    }
}

/// The outline of a triangle with vertices `a`, `b` and `c`.
#[derive(Debug, Clone, Copy, PartialEq, Eq, Structural)]
pub struct Triangle {
    pub a: Point,
    pub b: Point,
    pub c: Point,
}

impl Triangle {
    pub fn new(p1: &Point, p2: &Point, p3: &Point) -> (t: Triangle)
        ensures
            t == (Triangle { a: *p1, b: *p2, c: *p3 }),
    {
        Triangle { a: *p1, b: *p2, c: *p3 }
    }

    /// The three edges `ab`, `bc`, `ca`, all in `color`.
    pub open spec fn edge_lines(&self, color: Color) -> Seq<Line> {
        seq![
            Line { p1: self.a, p2: self.b, color },
            Line { p1: self.b, p2: self.c, color },
            Line { p1: self.c, p2: self.a, color },
        ]
    }

    /// The three edges `ab`, `bc`, `ca`, all in `color`.
    pub fn edges(&self, color: Color) -> (r: Vec<Line>)
        ensures
            r@ == self.edge_lines(color),
    {
        let r = vec![
            Line::with_color(&self.a, &self.b, color),
            Line::with_color(&self.b, &self.c, color),
            Line::with_color(&self.c, &self.a, color),
        ];
        assert(r@ =~= self.edge_lines(color));
        r
    }
}

impl Drawable for Triangle {
    open spec fn valid(&self) -> bool {
        true
    }

    fn is_valid(&self) -> bool {
        true
    }

    open spec fn render(&self, color: Color) -> Seq<Pixel> {
        render_lines(self.edge_lines(color))
    }

    fn draw_with<D: Displayable>(&self, color: Color, sink: &mut D) {
        let edges = self.edges(color);
        draw_lines(&edges, sink);
    }
}

/// The outline of an axis-aligned rectangle given by two opposite corners.
///
/// The corners are taken as given: a `left` corner to the right of or below
/// `right` gives the same four edges, mirrored.
#[derive(Debug, Clone, Copy, PartialEq, Eq, Structural)]
pub struct Rectangle {
    pub left: Point,
    pub right: Point,
}

impl Rectangle {
    pub fn new(p1: &Point, p2: &Point) -> (r: Rectangle)
        ensures
            r == (Rectangle { left: *p1, right: *p2 }),
    {
        Rectangle { left: *p1, right: *p2 }
    }

    /// The four corners in drawing order: `left`, `(left.x, right.y)`,
    /// `right`, `(right.x, left.y)`.
    pub open spec fn corners(&self) -> Seq<Point> {
        seq![
            self.left,
            Point { x: self.left.x, y: self.right.y },
            self.right,
            Point { x: self.right.x, y: self.left.y },
        ]
    }

    /// The four edges joining the corners in cyclic order, all in `color`.
    pub open spec fn edge_lines(&self, color: Color) -> Seq<Line> {
        Seq::new(4, |i: int| Line { p1: self.corners()[i], p2: self.corners()[(i + 1) % 4], color })
    }

    /// The four edges joining the corners in cyclic order, all in `color`.
    pub fn edges(&self, color: Color) -> (r: Vec<Line>)
        ensures
            r@ == self.edge_lines(color),
    {
        let c1 = Point::new(self.left.x, self.right.y);
        let c2 = Point::new(self.right.x, self.left.y);
        let r = vec![
            Line::with_color(&self.left, &c1, color),
            Line::with_color(&c1, &self.right, color),
            Line::with_color(&self.right, &c2, color),
            Line::with_color(&c2, &self.left, color),
        ];
        assert(r@ =~= self.edge_lines(color));
        r
    }
}

impl Drawable for Rectangle {
    open spec fn valid(&self) -> bool {
        true
    }

    fn is_valid(&self) -> bool {
        true
    }

    open spec fn render(&self, color: Color) -> Seq<Pixel> {
        render_lines(self.edge_lines(color))
    }

    fn draw_with<D: Displayable>(&self, color: Color, sink: &mut D) {
        let edges = self.edges(color);
        draw_lines(&edges, sink);
    }
}

} // verus!
