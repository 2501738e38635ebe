//! A double-buffered renderer: one frame is displayed while the other is
//! written, and `swap` exchanges them each tick, so a caller never
//! observes a partially drawn frame.

use vstd::prelude::*;
use crate::frame_buffer::FrameBuffer;
use crate::screen::{ScreenSize, DIM_MAX};

verus! {

/// Two independently allocated frames and the screen size they cover.
pub struct DoubleBufferedRenderer {
    /// The completed frame, the one `render` reads.
    pub front: FrameBuffer,
    /// The frame currently being written.
    pub back: FrameBuffer,
    pub screen_size: ScreenSize,
}

impl DoubleBufferedRenderer {
    /// Both frames cover the screen.
    pub open spec fn wf(&self) -> bool {
        &&& self.screen_size.valid()
        &&& self.front.wf(self.screen_size)
        &&& self.back.wf(self.screen_size)
    }

    /// Allocates both frames blank at the given size.
    pub fn new(width: usize, height: usize) -> (r: Self)
        requires
            1 <= width <= DIM_MAX,
            1 <= height <= DIM_MAX,
        ensures
            r.wf(),
            r.screen_size == (ScreenSize { width, height }),
            r.front.buffer@ == Seq::new((width * height) as nat, |i: int| ' '),
            r.front.z_buffer@ == Seq::new((width * height) as nat, |i: int| 0i64),
            r.back.buffer@ == Seq::new((width * height) as nat, |i: int| ' '),
            r.back.z_buffer@ == Seq::new((width * height) as nat, |i: int| 0i64),
    {
        DoubleBufferedRenderer {
            front: FrameBuffer::new(width, height),
            back: FrameBuffer::new(width, height),
            screen_size: ScreenSize { width, height },
        }
    }

    /// Exchanges the completed and the written frame: what was drawn
    /// becomes visible, and the previously visible frame becomes the next
    /// write target.
    pub fn swap(&mut self)
        ensures
            final(self).front == old(self).back,
            final(self).back == old(self).front,
            final(self).screen_size == old(self).screen_size,
    {
        core::mem::swap(&mut self.front, &mut self.back);
    }

    /// The frame to draw into; the displayed frame is never handed out
    /// for writing.
    pub fn back_buffer(&mut self) -> (r: &mut FrameBuffer)
        ensures
            *r == old(self).back,
            final(self).back == *final(r),
            final(self).front == old(self).front,
            final(self).screen_size == old(self).screen_size,
    {
        &mut self.back
    }

    /// Renders the completed frame, never the one being written.
    pub fn render(&self) -> (r: String)
        requires
            self.wf(),
        ensures
            r@ == self.front.buffer@,
    {
        self.front.render(&self.screen_size)
    }
}

} // verus!
