use vstd::prelude::*;
use crate::random::random_in;

verus! {

/// A pixel coordinate pair. Any pair of `i32` values is a point, including
/// coordinates that lie off any particular canvas.
#[derive(Debug, Clone, Copy, PartialEq, Eq, Structural)]
pub struct Point {
    pub x: i32,
    pub y: i32,
}

/// An RGB color, one byte per channel.
#[derive(Debug, Clone, Copy, PartialEq, Eq, Structural)]
pub struct Color {
    pub r: u8,
    pub g: u8,
    pub b: u8,
}

/// One write handed to a pixel sink: a color at a coordinate.
#[derive(Debug, Clone, Copy, PartialEq, Eq, Structural)]
pub struct Pixel {
    pub x: i32,
    pub y: i32,
    pub color: Color,
}

/// Why a shape could not be built.
#[derive(Debug, Clone, Copy, PartialEq, Eq, Structural)]
pub enum ShapeError {
    /// A random factory was given a width or a height that is not positive,
    /// so no coordinate lies in its range.
    InvalidBounds,
}

impl Point {
    pub fn new(x: i32, y: i32) -> (r: Point)
        ensures
            r.x == x,
            r.y == y,
    {
        Point { x, y }
    }

    /// A point drawn uniformly from `[0, width) x [0, height)`; fails with
    /// `InvalidBounds` when either range is empty.
    pub fn random(width: i32, height: i32) -> (r: Result<Point, ShapeError>)
        ensures
            r is Err <==> (width <= 0 || height <= 0),
            r is Err ==> r->Err_0 == ShapeError::InvalidBounds,
            r matches Ok(p) ==> 0 <= p.x < width && 0 <= p.y < height,
    {
        if width <= 0 || height <= 0 {
            return Err(ShapeError::InvalidBounds);
        }
        let x = random_in(0, width);
        let y = random_in(0, height);
        Ok(Point { x, y })
    }
}

impl Color {
    pub fn rgb(r: u8, g: u8, b: u8) -> (c: Color)
        ensures
            c.r == r,
            c.g == g,
            c.b == b,
    {
        Color { r, g, b }
    }

    /// A color whose three channels are drawn independently and uniformly
    /// from `0..=255`. Two calls need not agree.
    pub fn random() -> (c: Color) {
        let r = random_in(0, 256) as u8;
        let g = random_in(0, 256) as u8;
        let b = random_in(0, 256) as u8;
        Color { r, g, b }
    }
}

} // verus!
