//! Two same-size pixel buffers: the renderer writes the back one, readers
//! see the front one, and a swap exchanges them.
use vstd::prelude::*;

verus! {

/// Buffers held.
pub const NUM_BUFFERS: usize = 2;

/// A double-buffered image of `width` x `height` RGBA pixels.
#[derive(Clone, Debug)]
pub struct FrameBuffer {
    pub buffer: Vec<u32>,
    pub width: usize,
    pub height: usize,
    pub front_buffer_index: usize,
    pub back_buffer_index: usize,
    /// The last pixel written to the back buffer since the last swap.
    pub dirty_pixel_count: usize,
}

impl FrameBuffer {
    /// Pixels in one buffer.
    pub open spec fn size(&self) -> int {
        self.width * self.height
    }

    pub open spec fn wf(&self) -> bool {
        &&& self.width * self.height * 2 <= usize::MAX
        &&& self.buffer@.len() == self.size() * 2
        &&& self.front_buffer_index < 2
        &&& self.back_buffer_index == 1 - self.front_buffer_index
    }

    /// The front buffer's pixels.
    pub open spec fn front(&self) -> Seq<u32> {
        self.buffer@.subrange(self.front_buffer_index * self.size(), self.front_buffer_index * self.size() + self.size())
    }

    /// The back buffer's pixels.
    pub open spec fn back(&self) -> Seq<u32> {
        self.buffer@.subrange(self.back_buffer_index * self.size(), self.back_buffer_index * self.size() + self.size())
    }

    /// Two black buffers; buffer 0 is in front.
    pub fn new(width: usize, height: usize) -> (r: FrameBuffer)
        requires
            width * height * 2 <= usize::MAX,
        ensures
            r.wf(),
            r.width == width && r.height == height,
            r.front_buffer_index == 0,
            forall|i: int| 0 <= i < r.buffer@.len() ==> r.buffer@[i] == 0,
    {
        FrameBuffer {
            buffer: vec![0u32; width * height * NUM_BUFFERS],
            width,
            height,
            front_buffer_index: 0,
            back_buffer_index: 1,
            dirty_pixel_count: 0,
        }
    }

    /// Exchanges the front and the back buffer.
    pub fn swap_buffers(&mut self)
        requires
            old(self).wf(),
        ensures
            final(self).wf(),
            final(self).front_buffer_index == old(self).back_buffer_index,
            final(self).back_buffer_index == old(self).front_buffer_index,
            final(self).buffer == old(self).buffer,
            final(self).front() == old(self).back(),
            final(self).width == old(self).width && final(self).height == old(self).height,
            final(self).dirty_pixel_count == 0,
    {
        let front = self.front_buffer_index;
        self.front_buffer_index = self.back_buffer_index;
        self.back_buffer_index = front;
        self.dirty_pixel_count = 0;
    }

    /// The front buffer.
    pub fn get_front_buffer(&self) -> (r: &[u32])
        requires
            self.wf(),
        ensures
            r@ == self.front(),
    {
        proof {
            assert(self.front_buffer_index * self.size() + self.size() <= self.size() * 2) by (nonlinear_arith)
                requires
                    self.front_buffer_index < 2,
                    self.size() >= 0,
            ;
        }
        let size = self.width * self.height;
        let start: usize = size * self.front_buffer_index;
        vstd::slice::slice_subrange(self.buffer.as_slice(), start, start + size)
    }

    /// Writes a pixel of the back buffer.
    pub fn set_pixel(&mut self, index: usize, value: u32)
        requires
            old(self).wf(),
            index < old(self).size(),
        ensures
            final(self).wf(),
            final(self).buffer@ == old(self).buffer@.update(old(self).back_buffer_index * old(self).size() + index, value),
            final(self).width == old(self).width && final(self).height == old(self).height,
            final(self).front_buffer_index == old(self).front_buffer_index,
            final(self).back_buffer_index == old(self).back_buffer_index,
    {
        proof {
            assert(self.back_buffer_index * self.size() + index < self.size() * 2) by (nonlinear_arith)
                requires
                    self.back_buffer_index < 2,
                    index < self.size(),
            ;
        }
        let start = self.back_buffer_index * (self.width * self.height);
        self.buffer.set(start + index, value);
        self.dirty_pixel_count = index;
    }
}

} // verus!
