//! Swapchain state: the chain of presentable images, its configuration, and
//! the framebuffer built for each image.

use vstd::prelude::*;

verus! {

/// Width and height of a surface, in pixels.
#[derive(Clone, Copy, PartialEq, Eq, Structural, Debug)]
pub struct Extent {
    pub width: u32,
    pub height: u32,
}

/// How presentable images are queued to the display engine.
#[derive(Clone, Copy, PartialEq, Eq, Structural, Debug)]
pub enum PresentMode {
    Fifo,
    Immediate,
    Mailbox,
}

/// A render target bound to one swapchain image. Framebuffers are rebuilt
/// whenever the swapchain is recreated, so a framebuffer's extent always
/// matches the extent of the chain it belongs to.
#[derive(Clone, Copy, PartialEq, Eq, Structural, Debug)]
pub struct Framebuffer {
    /// Index of the swapchain image this framebuffer renders to.
    pub image_index: u32,
    /// Dimensions, equal to the swapchain extent it was built against.
    pub extent: Extent,
}

/// What the backend answered to a swapchain rebuild request.
#[derive(Clone, Copy, PartialEq, Eq, Structural, Debug)]
pub enum RecreateOutcome {
    /// The chain was rebuilt and now holds this many presentable images.
    Created { image_count: u32 },
    /// The surface does not support the requested dimensions right now;
    /// nothing was rebuilt.
    UnsupportedDimensions,
}

/// Errors a swapchain operation reports to its caller.
#[derive(Clone, Copy, PartialEq, Eq, Structural, Debug)]
pub enum SwapchainError {
    /// The requested dimensions were refused; the prior chain is untouched
    /// and the caller must retry on a later resize.
    UnsupportedDimensions,
}

/// Builds one framebuffer per swapchain image, each with the given extent.
pub fn build_framebuffers(extent: Extent, count: u32) -> (fbs: Vec<Framebuffer>)
    ensures
        fbs@.len() == count as nat,
        forall|i: int|
            0 <= i < count as int ==> #[trigger] fbs@[i] == (Framebuffer {
                image_index: i as u32,
                extent,
            }),
{
    let mut fbs: Vec<Framebuffer> = Vec::new();
    let mut i: u32 = 0;
    while i < count
        invariant
            i <= count,
            fbs@.len() == i as nat,
            forall|j: int|
                0 <= j < i as int ==> #[trigger] fbs@[j] == (Framebuffer {
                    image_index: j as u32,
                    extent,
                }),
        decreases count - i,
    {
        fbs.push(Framebuffer { image_index: i, extent });
        i = i + 1;
    }
    fbs
}

/// The swapchain's configuration together with the per-image framebuffers
/// derived from it.
pub struct SwapchainState {
    /// Number of presentable images in the chain; at least one.
    pub image_count: u32,
    /// Current dimensions, matching the owning window's client area.
    pub extent: Extent,
    /// Pixel format identifier, fixed when the chain is first built.
    pub format: u32,
    /// Presentation mode, fixed when the chain is first built.
    pub present_mode: PresentMode,
    /// One framebuffer per presentable image.
    pub framebuffers: Vec<Framebuffer>,
}

impl SwapchainState {
    /// Well-formedness: there is a framebuffer for each image, in image
    /// order, and each one's extent matches the chain's.
    pub open spec fn wf(self) -> bool {
        &&& self.image_count >= 1
        &&& self.framebuffers@.len() == self.image_count as nat
        &&& forall|i: int|
            0 <= i < self.framebuffers@.len() ==> #[trigger] self.framebuffers@[i]
                == (Framebuffer { image_index: i as u32, extent: self.extent })
    }

    pub fn new(extent: Extent, image_count: u32, format: u32, present_mode: PresentMode) -> (s:
        Self)
        requires
            image_count >= 1,
        ensures
            s.wf(),
            s.extent == extent,
            s.image_count == image_count,
            s.format == format,
            s.present_mode == present_mode,
    {
        let framebuffers = build_framebuffers(extent, image_count);
        SwapchainState { image_count, extent, format, present_mode, framebuffers }
    }

    /// The framebuffer bound to the given swapchain image.
    pub fn framebuffer_for(&self, image_index: u32) -> (fb: Framebuffer)
        requires
            self.wf(),
            image_index < self.image_count,
        ensures
            fb == self.framebuffers@[image_index as int],
            fb.image_index == image_index,
            fb.extent == self.extent,
    {
        self.framebuffers[image_index as usize]
    }

    /// Rebuilds the chain against new window dimensions, as reported by the
    /// backend. On success every prior framebuffer is invalidated and
    /// replaced by one per new image, each with the new extent; format and
    /// presentation mode are kept. If the backend refuses the dimensions,
    /// the prior state is left untouched and the error is returned for the
    /// caller to retry later.
    pub fn recreate(&mut self, new_extent: Extent, outcome: RecreateOutcome) -> (r: Result<
        (),
        SwapchainError,
    >)
        requires
            old(self).wf(),
            outcome matches RecreateOutcome::Created { image_count } ==> image_count >= 1,
        ensures
            final(self).wf(),
            final(self).format == old(self).format,
            final(self).present_mode == old(self).present_mode,
            match outcome {
                RecreateOutcome::Created { image_count } => {
                    &&& r is Ok
                    &&& final(self).extent == new_extent
                    &&& final(self).image_count == image_count
                    &&& final(self).framebuffers@.len() == image_count as nat
                    &&& forall|i: int|
                        0 <= i < image_count as int
                            ==> (#[trigger] final(self).framebuffers@[i]).extent == new_extent
                },
                RecreateOutcome::UnsupportedDimensions => {
                    &&& r == Err::<(), SwapchainError>(SwapchainError::UnsupportedDimensions)
                    &&& *final(self) == *old(self)
                },
            },
    {
        match outcome {
            RecreateOutcome::Created { image_count } => {
                self.extent = new_extent;
                self.image_count = image_count;
                self.framebuffers = build_framebuffers(new_extent, image_count);
                Ok(())
            },
            RecreateOutcome::UnsupportedDimensions => Err(SwapchainError::UnsupportedDimensions),
        }
    }
}

} // verus!
