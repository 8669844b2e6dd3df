//! An exact two- and three-dimensional geometric kernel for a CAD-style
//! viewer: vector and matrix algebra, axis-aligned bounding-box
//! accumulation, geometric primitives that derive their own boxes, and
//! ray-ray intersection.
//!
//! Coordinates are [`Scalar`] values: exact 64-bit integers extended with
//! the two infinities and a not-a-number value, so that the degenerate
//! cases the geometry depends on — the `null` box whose inverted infinite
//! bounds make it the identity of union, division by zero propagating
//! rather than failing — carry over exactly, and every operation of the
//! kernel is total and verified. Rendering, file import and the camera are
//! collaborators outside this crate; they exchange only the plain value
//! types defined here.

pub mod bounding_box;
pub mod drawing;
pub mod geometry;
pub mod mat;
pub mod ray2d;
pub mod scalar;
pub mod traits;
pub mod vec;

pub use bounding_box::BoundingBox;
pub use drawing::Drawing;
pub use geometry::GeometryObject;
pub use mat::Mat2;
pub use mat::Mat3;
pub use ray2d::Ray2D;

pub use scalar::BinOp;
pub use scalar::Scalar;
pub use traits::Cross;
pub use traits::Dot;
pub use vec::Vec2;
pub use vec::Vec3;
