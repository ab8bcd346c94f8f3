//! Decision core of a minimal GPU render loop: swapchain negotiation rules,
//! surface reconfiguration across resize and surface-loss events, and the
//! classification of per-frame acquisition outcomes.
//!
//! The host event loop and the GPU driver live outside this crate; they feed
//! plain values (reported capabilities, window sizes, acquisition outcomes)
//! into the types here and carry out the actions the library decides on.

pub mod frame;
pub mod surface;
