//! Core of an interactive Mandelbrot viewer.
//!
//! The crate holds the view state (pan offset and magnification), the derived
//! render-side camera with its iteration budget, the per-frame protocol that
//! sequences acquisition, compute and presentation, and the escape-time
//! iteration that the compute stage performs per pixel.  All fractional
//! quantities are carried in a fixed-point encoding of thousandths of a unit,
//! so that every formula is exact integer arithmetic.

pub mod camera;
pub mod engine;
pub mod fixed;
pub mod fractal;
pub mod renderer;
