//! Per-frame data: the completion token, the simulation uniform state, and
//! the events and backend outcomes the loop reacts to.

use vstd::prelude::*;

verus! {

/// An at-most-once-awaitable token for GPU work submitted so far. Exactly one
/// such token is live between frames: the "previous frame end". It is joined
/// with the next acquired image's availability signal and thereby consumed.
#[derive(Clone, Copy, PartialEq, Eq, Structural, Debug)]
pub enum FrameFuture {
    /// No outstanding work; joining with this token is a no-op.
    Completed,
    /// Work for the frame with this submission number is still in flight.
    Pending(u64),
}

/// Cached pointer position, in window pixel coordinates.
#[derive(Clone, Copy, PartialEq, Eq, Structural, Debug)]
pub struct PointerPos {
    pub x: u32,
    pub y: u32,
}

/// The simulation uniform state for one tick: rebuilt from the latest cached
/// input every frame and read-only once handed to the compute dispatch.
#[derive(Clone, Copy, PartialEq, Eq, Structural, Debug)]
pub struct ComputeStep {
    /// Time since the previous tick, in microseconds; strictly positive.
    pub delta_micros: u64,
    /// Last known pointer position.
    pub pointer: PointerPos,
}

/// Window events the loop folds into its cached state between ticks.
#[derive(Clone, Copy, PartialEq, Eq, Structural, Debug)]
pub enum WindowEvent {
    /// The user asked to close the window; the loop terminates on the next
    /// tick, letting in-flight GPU work drain.
    CloseRequested,
    /// The client area changed; the swapchain must be rebuilt before the
    /// next image is acquired.
    Resized { width: u32, height: u32 },
    /// The pointer moved; the next tick's uniform state picks this up.
    PointerMoved { x: u32, y: u32 },
}

/// What the backend answered to an acquire-next-image request.
#[derive(Clone, Copy, PartialEq, Eq, Structural, Debug)]
pub enum AcquireOutcome {
    /// An image is available. `suboptimal` means it is still usable this
    /// frame, but the chain should be rebuilt soon.
    Acquired { image_index: u32, suboptimal: bool },
    /// The chain no longer matches the window; it must be rebuilt before
    /// further use.
    OutOfDate,
}

/// What the backend answered to chaining the present request and flushing.
#[derive(Clone, Copy, PartialEq, Eq, Structural, Debug)]
pub enum PresentOutcome {
    /// The frame's work was flushed; its completion token is now live.
    Presented,
    /// The chain went out of date at present time; recoverable, rebuild
    /// before the next frame.
    OutOfDate,
    /// Any other flush failure; treated as recoverable and logged by the
    /// driver, with the frame's GPU state assumed drained.
    OtherError,
}

} // verus!
