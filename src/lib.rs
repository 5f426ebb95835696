//! Decision logic of a Vulkan triangle renderer: device selection, swap-chain
//! negotiation, fixed render-pass and pipeline descriptions, the order in which
//! GPU resources live and die, and the per-frame synchronization protocol.
//!
//! Native calls are made by the program around this library; it hands the
//! library plain values (queue-family flags, surface capabilities, outcomes of
//! native calls) and carries out the decisions that come back.
pub mod commands;
pub mod device;
pub mod error;
pub mod frame;
pub mod instance;
pub mod lifecycle;
pub mod native;
pub mod pipeline;
pub mod render_pass;
pub mod swapchain;

pub use error::RunError;
pub use frame::run;
