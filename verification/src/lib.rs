//! Per-frame presentation loop with swapchain lifecycle management.
//!
//! The crate models the control side of a windowed rendering loop: a frame
//! pacer that hands out strictly positive time deltas, a swapchain whose
//! framebuffers are rebuilt on resize, and a presentation state machine that
//! decides, tick by tick, which GPU actions an unverified driver should
//! perform and folds the outcomes back into its state.

pub mod frame;
pub mod pacer;
pub mod presentation;
pub mod swapchain;
