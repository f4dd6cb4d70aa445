use vstd::prelude::*;
use crate::circle::{Circle, CIRCLE_SEGMENTS};
use crate::drawable::Drawable;
use crate::geometry::{Color, Pixel, Point};
use vstd::arithmetic::div_mod::lemma_basic_div;
use crate::line::{line_pixels, line_steps, walk, distance, Line};
use crate::shapes::{render_lines, Rectangle, Triangle};

verus! {

/// A line writes `max(|dx|, |dy|)` pixels, or one when its endpoints
/// coincide; the first is its start point; every pixel is in its color.
pub proof fn lemma_line_pixels(p1: Point, p2: Point, color: Color)
    ensures
        line_steps(p1, p2) == 0 ==> line_pixels(p1, p2, color) == seq![Pixel { x: p1.x, y: p1.y, color }],
        line_steps(p1, p2) > 0 ==> line_pixels(p1, p2, color).len() == line_steps(p1, p2),
        line_pixels(p1, p2, color)[0] == (Pixel { x: p1.x, y: p1.y, color }),
        forall|i: int|
            0 <= i < line_pixels(p1, p2, color).len() ==> #[trigger] line_pixels(p1, p2, color)[i].color
                == color,
{
    let n = line_steps(p1, p2);
    if n > 0 {
        lemma_basic_div(n, 2 * n);
        let dx = distance(p1.x as int, p2.x as int);
        let dy = distance(p1.y as int, p2.y as int);
        assert(2 * 0 * dx + n == n) by (nonlinear_arith);
        assert(2 * 0 * dy + n == n) by (nonlinear_arith);
        assert(walk(p1.x as int, p2.x as int, 0, n) == p1.x);
        assert(walk(p1.y as int, p2.y as int, 0, n) == p1.y);
    }
}

/// When every line of a sequence has color `c`, every pixel written for the
/// sequence has color `c`.
pub proof fn lemma_render_lines_uniform(lines: Seq<Line>, c: Color)
    requires
        forall|i: int| 0 <= i < lines.len() ==> #[trigger] lines[i].color == c,
    ensures
        forall|j: int|
            0 <= j < render_lines(lines).len() ==> #[trigger] render_lines(lines)[j].color == c,
    decreases lines.len(),
{
    if lines.len() > 0 {
        let init = lines.drop_last();
        assert forall|i: int| 0 <= i < init.len() implies #[trigger] init[i].color == c by {
            assert(init[i] == lines[i]);
        }
        lemma_render_lines_uniform(init, c);
        let last = lines.last();
        assert(last.color == c);
        lemma_line_pixels(last.p1, last.p2, c);
        let whole = render_lines(lines);
        assert(whole == render_lines(init) + last.pixels());
    }
}

/// A triangle is drawn as its three edges `ab`, `bc`, `ca`, which form a
/// closed loop, and every pixel it writes is in the one color it was drawn
/// with.
pub proof fn lemma_triangle_outline(t: Triangle, c: Color)
    ensures
        t.edge_lines(c).len() == 3,
        t.edge_lines(c)[0].p1 == t.a && t.edge_lines(c)[1].p1 == t.b && t.edge_lines(c)[2].p1
            == t.c,
        forall|i: int|
            0 <= i < 3 ==> #[trigger] t.edge_lines(c)[i].p2 == t.edge_lines(c)[(i + 1) % 3].p1,
        t.render(c) == render_lines(t.edge_lines(c)),
        forall|j: int| 0 <= j < t.render(c).len() ==> #[trigger] t.render(c)[j].color == c,
{
    lemma_render_lines_uniform(t.edge_lines(c), c);
}

/// A rectangle is drawn as four edges through `left`, `(left.x, right.y)`,
/// `right` and `(right.x, left.y)` in that order, closing back on `left`,
/// and every pixel it writes is in the one color it was drawn with.
pub proof fn lemma_rectangle_outline(r: Rectangle, c: Color)
    ensures
        r.edge_lines(c).len() == 4,
        forall|i: int| 0 <= i < 4 ==> #[trigger] r.edge_lines(c)[i].p1 == r.corners()[i],
        forall|i: int|
            0 <= i < 4 ==> #[trigger] r.edge_lines(c)[i].p2 == r.edge_lines(c)[(i + 1) % 4].p1,
        r.render(c) == render_lines(r.edge_lines(c)),
        forall|j: int| 0 <= j < r.render(c).len() ==> #[trigger] r.render(c)[j].color == c,
{
    lemma_render_lines_uniform(r.edge_lines(c), c);
}

/// A circle is drawn as 361 segments, each starting where the one before
/// ends; the point sampled at 0 degrees, where the first segment starts, is
/// the point sampled at 360 degrees, where the last one ends. Every pixel it
/// writes is in the one color it was drawn with.
pub proof fn lemma_circle_outline(circle: Circle, c: Color)
    ensures
        circle.segment_lines(c).len() == CIRCLE_SEGMENTS,
        circle.segment_lines(c)[0].p1 == circle.segment_lines(c)[360].p2,
        forall|i: int|
            0 < i < CIRCLE_SEGMENTS ==> #[trigger] circle.segment_lines(c)[i].p1
                == circle.segment_lines(c)[i - 1].p2,
        circle.render(c) == render_lines(circle.segment_lines(c)),
        forall|j: int|
            0 <= j < circle.render(c).len() ==> #[trigger] circle.render(c)[j].color == c,
{
    let lines = circle.segment_lines(c);
    assert(lines[0].p1 == circle.vertex(0));
    assert(lines[360].p2 == circle.vertex(360));
    assert(circle.vertex(0) == circle.vertex(360));
    lemma_render_lines_uniform(lines, c);
}

/// Drawing one shape in one color onto two sinks, whatever each held
/// before, appends the same writes to both.
pub proof fn lemma_render_repeatable<S: Drawable>(
    shape: S,
    color: Color,
    before1: Seq<Pixel>,
    before2: Seq<Pixel>,
)
    ensures
        (before1 + shape.render(color)).subrange(
            before1.len() as int,
            (before1 + shape.render(color)).len() as int,
        ) == (before2 + shape.render(color)).subrange(
            before2.len() as int,
            (before2 + shape.render(color)).len() as int,
        ),
{
    assert((before1 + shape.render(color)).subrange(
        before1.len() as int,
        (before1 + shape.render(color)).len() as int,
    ) =~= shape.render(color));
    assert((before2 + shape.render(color)).subrange(
        before2.len() as int,
        (before2 + shape.render(color)).len() as int,
    ) =~= shape.render(color));
}

} // verus!
