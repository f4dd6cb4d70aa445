use vstd::prelude::*;
use crate::geometry::{Color, Pixel};

verus! {

/// A pixel sink: something that accepts `(x, y, color)` writes. It performs
/// no bounds checking on behalf of the shapes; coordinates outside its area
/// are its own concern.
pub trait Displayable {
    /// Every write this sink has accepted, oldest first.
    spec fn written(&self) -> Seq<Pixel>;

    /// Writes `color` at `(x, y)`.
    fn display(&mut self, x: i32, y: i32, color: Color)
        ensures
            final(self).written() == old(self).written().push(Pixel { x, y, color }),
    ;
}

/// A sink that keeps every write in order, for replay onto an image or for
/// inspection.
pub struct Canvas {
    pixels: Vec<Pixel>,
}

impl Canvas {
    /// A canvas with no writes yet.
    pub fn new() -> (c: Canvas)
        ensures
            c.written() == Seq::<Pixel>::empty(),
    {
        Canvas { pixels: Vec::new() }
    }

    /// The writes made so far, oldest first.
    pub fn pixels(&self) -> (r: &Vec<Pixel>)
        ensures
            r@ == self.written(),
    {
        &self.pixels
    }
}

impl Displayable for Canvas {
    closed spec fn written(&self) -> Seq<Pixel> {
        self.pixels@
    }

    fn display(&mut self, x: i32, y: i32, color: Color) {
        self.pixels.push(Pixel { x, y, color });
    }
}

} // verus!
