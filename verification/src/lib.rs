//! Navigation and presentation core of a touchscreen fitness-tracking
//! application: a stack of full-screen views, a touch-gesture classifier
//! that tells taps from scrolls, and the render-to-texture compositing
//! protocol that ties them together.
//!
//! Window-system bootstrap, GPU bindings and widget rasterisation live
//! outside this crate; the core sees touch samples as plain fixed-point
//! coordinates and hands back explicit draw plans.

pub mod app;
pub mod fonts;
pub mod geom;
pub mod gesture;
pub mod screens;
pub mod stack;
pub mod transition;
