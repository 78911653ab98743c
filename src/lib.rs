//! Decision logic of a small real-time rendering harness: mesh validation
//! before upload, the book of what lives on the graphics context, the
//! per-mode draw plan, and the event-driven frame scheduler. The window, the graphics device and the floating-point
//! transforms live with the caller, which performs the actions decided here.
pub mod config;
pub mod mesh;
pub mod plan;
pub mod resources;
pub mod scheduler;
