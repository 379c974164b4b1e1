//! Fixed-dimension vectors and points with integer arithmetic stated over exact
//! mathematical models, and a lock-guarded shared-ownership helper.
pub mod arith;
pub mod point;
pub mod shared_state;
pub mod vector;

pub use point::{Point2, Point2i, Point3, Point3i};
pub use shared_state::{shared, Shared};
pub use vector::{Vector, Vector2, Vector2i, Vector3, Vector3i};
