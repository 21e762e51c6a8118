//! Decision core of a GPU field visualiser.
//!
//! The crate keeps three time-varying resources consistent across frames:
//! the simulated field, the presentation surface, and the draw pipeline that
//! reads the first and writes the second. It holds no device handles. Every
//! function maps plain values to plain values; the caller performs the device
//! work that the returned plans describe and reports the outcome back.

pub mod laws;
pub mod layer;
pub mod orchestrator;
pub mod pipeline;
pub mod quad_renderer;
pub mod simulator;
pub mod surface;
pub mod ui_state;
pub mod viewport;
