//! A small 2D shape rasterizer: points, lines, triangles, rectangles and
//! circles are turned into the exact sequence of pixel writes they make on
//! a pixel sink.
pub mod geometry;
mod random;
pub mod sink;
pub mod drawable;
pub mod line;
pub mod shapes;
pub mod trig;
pub mod circle;
pub mod laws;

pub use geometry::{Color, Pixel, Point, ShapeError};
pub use sink::{Canvas, Displayable};
pub use drawable::Drawable;
pub use line::Line;
pub use shapes::{Rectangle, Triangle};
pub use circle::Circle;
