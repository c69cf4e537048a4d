//! Frame update core of a small jump-and-spin demo: a fixed-step physics and
//! trick-detection state machine, the layout of the uniform block handed to
//! the shader, the renderer's surface bookkeeping, and the routing of window
//! events to both.
//!
//! Every quantity the physics works on is an integer count of millionths
//! (of a length unit, of a radian, of the explosion phase), so that each
//! step is exact and every property below is proved for all inputs.

pub mod app;
pub mod gpu;
pub mod physics;
pub mod uniform;
