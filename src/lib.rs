//! Decision logic of a double-buffered presentation loop: adapter capability
//! resolution, swapchain configuration and resource sets, the per-frame
//! synchronization state machine, and device-local upload planning.

pub mod swapchain;
pub mod frame;
pub mod caps;
pub mod transfer;
pub mod teardown;
