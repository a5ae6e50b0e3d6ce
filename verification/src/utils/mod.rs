//! Geometry and small helpers shared by the backends.

pub mod byte_order;
pub mod device_number;
pub mod geometry;
pub mod rects;
pub mod text;
pub mod transform;
