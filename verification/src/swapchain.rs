//! The swapchain model: a ring of presentable back buffers.
//!
//! The native swapchain owns the back-buffer images and reports which of
//! them is the current render target.  Under the flip-discard presentation
//! model, a successful present advances the current index by one around the
//! ring, and resizing the buffers resets it to zero.

use vstd::prelude::*;
use crate::params::Format;

verus! {

/// The swapchain: its configuration and the index of the back buffer that
/// is currently the render target.
pub struct Swapchain {
    pub buffer_count: u32,
    pub current_index: u32,
    pub width: u32,
    pub height: u32,
    pub format: Format,
    pub allow_tearing: bool,
}

impl Swapchain {
    pub open spec fn well_formed(self) -> bool {
        &&& 2 <= self.buffer_count <= 3
        &&& self.current_index < self.buffer_count
    }

    /// A freshly created swapchain; the first back buffer is current.
    pub fn new(
        width: u32,
        height: u32,
        format: Format,
        buffer_count: u32,
        allow_tearing: bool,
    ) -> (r: Self)
        requires
            2 <= buffer_count <= 3,
        ensures
            r == (Swapchain {
                buffer_count,
                current_index: 0,
                width,
                height,
                format,
                allow_tearing,
            }),
            r.well_formed(),
    {
        Swapchain { buffer_count, current_index: 0, width, height, format, allow_tearing }
    }

    pub fn get_current_back_buffer_index(&self) -> (r: u32)
        ensures
            r == self.current_index,
    {
        self.current_index
    }

    /// A successful present: the ring rotates to the next back buffer.
    pub fn present(&mut self)
        requires
            old(self).well_formed(),
        ensures
            final(self).well_formed(),
            final(self).current_index == (old(self).current_index + 1) % (old(self).buffer_count
                as int),
            *final(self) == (Swapchain { current_index: final(self).current_index, ..*old(self) }),
    {
        let next: u32 = (self.current_index + 1) % self.buffer_count;
        self.current_index = next;
    }

    /// Resizes the back buffers to the new client area; the ring restarts
    /// at buffer zero.
    pub fn resize_buffers(&mut self, width: u32, height: u32)
        requires
            old(self).well_formed(),
        ensures
            final(self).well_formed(),
            *final(self) == (Swapchain { current_index: 0, width, height, ..*old(self) }),
    {
        self.width = width;
        self.height = height;
        self.current_index = 0;
    }
}

} // verus!
