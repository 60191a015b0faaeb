//! A bouncing-ball text animation: points travel along a curve, turn round at
//! the ends of its domain, and are drawn frame by frame onto one line of
//! characters.
//!
//! This crate holds the rules of the animation, each with a proved contract:
//! how a point turns round at the bounds of the index axis and how its index
//! is held between them ([`axis`]), how the trail of points moves on
//! ([`trail`]), how a frame becomes a line of text ([`raster`]), which shapes
//! and configurations are accepted ([`config`], [`shape`]), and when a run
//! reverses or stops ([`animation`]).
//!
//! Coordinates are of a type that the caller chooses, and the arithmetic on
//! them is the caller's: the rules take the outcome of a comparison where
//! they depend on one, and carry coordinates through unchanged.

pub mod animation;
pub mod axis;
pub mod config;
pub mod point;
pub mod raster;
pub mod shape;
pub mod sign;
pub mod trail;
pub use crate::animation::{Animation, Phase, Step};
pub use crate::axis::clamp_index;
pub use crate::config::{AnimationConfig, ConfigError, UNLIMITED};
pub use crate::point::Point;
pub use crate::raster::{clamp_column, rasterize, BLANK, MARKER};
pub use crate::shape::Ellipse;
pub use crate::sign::Sign;
pub use crate::trail::render;
