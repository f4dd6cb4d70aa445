use vstd::prelude::*;
use crate::geometry::{Color, Pixel};
use crate::sink::Displayable;

verus! {

/// A shape that can render itself into a pixel sink.
///
/// What a shape writes is fixed by its geometry and one color: `render`
/// states that sequence, and `draw_with` writes exactly it. `draw` picks the
/// color itself, once per call.
pub trait Drawable {
    /// The shape's own invariant, needed before it is rendered.
    spec fn valid(&self) -> bool;

    /// Tests `valid`.
    fn is_valid(&self) -> (b: bool)
        ensures
            b == self.valid(),
    ;

    /// The writes that rendering this shape in `color` makes, in order.
    spec fn render(&self, color: Color) -> Seq<Pixel>;

    /// Renders the shape in `color` into `sink`.
    fn draw_with<D: Displayable>(&self, color: Color, sink: &mut D)
        requires
            self.valid(),
        ensures
            final(sink).written() == old(sink).written() + self.render(color),
    ;

    /// Renders the shape into `sink` in one color that the shape resolves.
    fn draw<D: Displayable>(&self, sink: &mut D)
        requires
            self.valid(),
        ensures
            exists|c: Color| final(sink).written() == old(sink).written() + self.render(c),
    {
        let c = self.color();
        self.draw_with(c, sink);
    }

    /// A color for this shape; by default a fresh random one.
    fn color(&self) -> Color {
        Color::random()
    }
}

} // verus!
