//! A wireframe 3D projection pipeline over exact integer arithmetic.
//!
//! The library models a pinhole-camera renderer: vectors and matrices with
//! exact component-wise algebra, Euler rotations restricted to quarter
//! turns (whose sines and cosines are exactly representable), a camera
//! whose world-to-screen transform composes offset, rotation and
//! perspective projection, and meshes of triangles projected to pixel
//! coordinates. All scalar arithmetic is exact `i64` arithmetic; divisions
//! truncate toward zero, as the contracts state.

pub mod camera;
pub mod matrix;
pub mod num;
pub mod polygon;
pub mod vec;
