//! Geometry primitives over exact scalars: unit-tagged lengths, points, sizes,
//! rectangles and 4x4 homogeneous transforms.

pub mod length;
pub mod matrix;
pub mod num;
pub mod point;
pub mod rect;
pub mod size;

pub use length::Length;
pub use matrix::Matrix4;
pub use point::{Point2D, Point3D, Point4D};
pub use rect::Rect;
pub use size::Size2D;
