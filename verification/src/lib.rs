//! Core of a pen drawing surface: the coordinate spaces between the window
//! and the canvas, the camera that relates them, the drawn content and the
//! tools that edit it.
//!
//! All coordinates are saturating fixed-point numbers ([`fixed::Fixed`]),
//! so every conversion is exact up to one rounding step per map and its
//! error can be bounded; the bounds are proved in [`rect`] and [`camera`].
//! The tools form a state machine ([`tool`]): one call per frame with the
//! cursor sample of that frame.

pub mod fixed;
pub mod vec2;
pub mod rect;
pub mod typed;
pub mod spaces;
pub mod canvas;
pub mod camera;
pub mod geometry;
pub mod content;
pub mod tool;
pub mod ui;
pub mod event_loop;
