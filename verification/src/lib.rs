//! Core logic of an animated world-clock scene: an analog clock face laid
//! over a day/night globe, both driven by wall-clock time and drawn through a
//! GPU pipeline by a thin unverified shell.
//!
//! Everything the scene decides — how an instant becomes hand angles, globe
//! rotation and axial tilt, how the viewport projection preserves aspect
//! ratio, which strokes make up the clock face, and how the frame loop reacts
//! to surface loss — lives here as verified code over exact integer models.
//! The shell only converts these models to floating-point GPU data and runs
//! the window loop.

pub mod angle;
pub mod background;
pub mod clock_face;
pub mod compositor;
pub mod geometry;
pub mod globe;
pub mod viewport;
pub mod wallclock;
