//! A minimal 2D software-rendering toolkit: a raw pixel canvas with
//! fill/point/line primitives, integer segment-intersection geometry,
//! and the isometric tile-map coordinate transform, all with verified
//! contracts.

pub mod backend;
pub mod canvas;
pub mod color;
pub mod draw;
pub mod geometry;
pub mod tilemap;

pub use canvas::Canvas;
pub use color::Rgb;
pub use geometry::LineSegment;
pub use geometry::Point;
