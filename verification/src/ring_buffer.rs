//! A ring of frame buffers: `buffer_count` independently allocated frames,
//! a write index that advances modulo the count each tick, and a display
//! index defined as the previously written frame — the one most recently
//! completed — so the displayed frame is never the one being written.
//!
//! The frames are held in an `AllocRingBuffer` of the `ringbuffer` crate,
//! used here as a fixed-size indexed store: exactly `buffer_count` frames
//! are enqueued once, and afterwards the frames are only read and replaced
//! in place.

use vstd::prelude::*;
use ringbuffer::AllocRingBuffer;
use crate::frame_buffer::FrameBuffer;
use crate::math::{mat_bounded, Mat3, MAT_MAX};
use crate::raster::{draw_cube, draw_cube_spec};
use crate::screen::{CameraSettings, ScreenSize, CUBE_WIDTH_MAX, DIM_MAX};

verus! {

#[verifier::external_type_specification]
#[verifier::external_body]
#[verifier::reject_recursive_types(T)]
pub struct ExAllocRingBuffer<T>(AllocRingBuffer<T>);

/// The frames a ring holds, oldest first, in enqueue order.
pub uninterp spec fn ring_items(rb: AllocRingBuffer<FrameBuffer>) -> Seq<FrameBuffer>;

/// The capacity the ring was created with.
pub uninterp spec fn ring_capacity(rb: AllocRingBuffer<FrameBuffer>) -> nat;

/// Relies on `AllocRingBuffer::new`: it creates an empty ring with exactly
/// the given capacity, and panics only on capacity zero.
#[verifier::external_body]
fn ring_new(capacity: usize) -> (r: AllocRingBuffer<FrameBuffer>)
    requires
        capacity >= 1,
    ensures
        ring_items(r) == Seq::<FrameBuffer>::empty(),
        ring_capacity(r) == capacity,
{
    AllocRingBuffer::new(capacity)
}

/// Relies on `RingBuffer::enqueue`: on a ring that is not full it appends
/// the value, overwriting nothing.
#[verifier::external_body]
fn ring_enqueue(rb: &mut AllocRingBuffer<FrameBuffer>, b: FrameBuffer)
    requires
        ring_items(*old(rb)).len() < ring_capacity(*old(rb)),
    ensures
        ring_items(*final(rb)) == ring_items(*old(rb)).push(b),
        ring_capacity(*final(rb)) == ring_capacity(*old(rb)),
{
    let _ = ringbuffer::RingBuffer::enqueue(rb, b);
}

/// Relies on `RingBuffer::len`: the number of values currently held.
#[verifier::external_body]
fn ring_len(rb: &AllocRingBuffer<FrameBuffer>) -> (r: usize)
    ensures
        r == ring_items(*rb).len(),
{
    ringbuffer::RingBuffer::len(rb)
}

/// Relies on `RingBuffer::get`: for an index below the length it returns
/// the value that many places after the oldest one.
#[verifier::external_body]
fn ring_get<'a>(rb: &'a AllocRingBuffer<FrameBuffer>, i: usize) -> (r: &'a FrameBuffer)
    requires
        i < ring_items(*rb).len(),
    ensures
        *r == ring_items(*rb)[i as int],
{
    ringbuffer::RingBuffer::get(rb, i).unwrap()
}

/// Relies on `RingBuffer::get_mut`: for an index below the length it
/// returns the value at that index mutably; nothing else of the ring
/// changes through it.
#[verifier::external_body]
fn ring_get_mut<'a>(rb: &'a mut AllocRingBuffer<FrameBuffer>, i: usize) -> (r: &'a mut FrameBuffer)
    requires
        i < ring_items(*old(rb)).len(),
    ensures
        *r == ring_items(*old(rb))[i as int],
        ring_items(*final(rb)) == ring_items(*old(rb)).update(i as int, *final(r)),
        ring_capacity(*final(rb)) == ring_capacity(*old(rb)),
{
    ringbuffer::RingBuffer::get_mut(rb, i).unwrap()
}

/// A ring-buffered renderer over `buffer_count` frames.
pub struct RingBufferedRenderer {
    buffers: AllocRingBuffer<FrameBuffer>,
    screen_size: ScreenSize,
    current_index: usize,
}

impl RingBufferedRenderer {
    /// The frames of the ring, oldest first.
    pub closed spec fn frames(&self) -> Seq<FrameBuffer> {
        ring_items(self.buffers)
    }

    /// The number of frames.
    pub open spec fn buffer_count(&self) -> int {
        self.frames().len() as int
    }

    /// The index of the frame currently being written.
    pub closed spec fn write_index(&self) -> int {
        self.current_index as int
    }

    /// The screen size every frame covers.
    pub closed spec fn screen(&self) -> ScreenSize {
        self.screen_size
    }

    /// The index of the frame `render` reads: the one written before the
    /// current write target, which is the most recently completed frame.
    pub open spec fn display_index(&self) -> int {
        (self.write_index() + self.buffer_count() - 1) % self.buffer_count()
    }

    /// At least two frames, a write index inside the ring, and every
    /// frame covering the screen.
    pub open spec fn wf(&self) -> bool {
        &&& 2 <= self.buffer_count() <= 0x1000_0000
        &&& 0 <= self.write_index() < self.buffer_count()
        &&& self.screen().valid()
        &&& forall|k: int|
            0 <= k < self.buffer_count() ==> (#[trigger] self.frames()[k]).wf(self.screen())
    }

    /// Allocates `buffer_count` blank frames at the given size, with the
    /// write index at zero.
    pub fn new(width: usize, height: usize, buffer_count: usize) -> (r: Self)
        requires
            1 <= width <= DIM_MAX,
            1 <= height <= DIM_MAX,
            2 <= buffer_count <= 0x1000_0000,
        ensures
            r.wf(),
            r.buffer_count() == buffer_count,
            r.write_index() == 0,
            r.screen() == (ScreenSize { width, height }),
            forall|k: int|
                0 <= k < buffer_count ==> (#[trigger] r.frames()[k]).buffer@ == Seq::new(
                    (width * height) as nat,
                    |i: int| ' ',
                ) && r.frames()[k].z_buffer@ == Seq::new((width * height) as nat, |i: int| 0i64),
    {
        let mut buffers = ring_new(buffer_count);
        let mut n: usize = 0;
        while n < buffer_count
            invariant
                n <= buffer_count,
                ring_capacity(buffers) == buffer_count,
                ring_items(buffers).len() == n,
                forall|k: int|
                    0 <= k < n ==> (#[trigger] ring_items(buffers)[k]).buffer@ == Seq::new(
                        (width * height) as nat,
                        |i: int| ' ',
                    ) && ring_items(buffers)[k].z_buffer@ == Seq::new(
                        (width * height) as nat,
                        |i: int| 0i64,
                    ),
                width <= DIM_MAX,
                height <= DIM_MAX,
            decreases buffer_count - n,
        {
            ring_enqueue(&mut buffers, FrameBuffer::new(width, height));
            n = n + 1;
        }
        RingBufferedRenderer {
            buffers,
            screen_size: ScreenSize { width, height },
            current_index: 0,
        }
    }

    /// The screen size of this renderer.
    pub fn screen_size(&self) -> (r: ScreenSize)
        ensures
            r == self.screen(),
    {
        self.screen_size
    }

    /// The frame at the current write index, for the rasterizer to clear
    /// and populate.
    pub fn current_buffer(&mut self) -> (r: &mut FrameBuffer)
        requires
            old(self).wf(),
        ensures
            *r == old(self).frames()[old(self).write_index()],
            final(self).frames() == old(self).frames().update(old(self).write_index(), *final(r)),
            final(self).write_index() == old(self).write_index(),
            final(self).screen() == old(self).screen(),
    {
        let idx = self.current_index;
        ring_get_mut(&mut self.buffers, idx)
    }

    /// Advances the write index by one, modulo the buffer count.
    pub fn next_buffer(&mut self)
        requires
            old(self).wf(),
        ensures
            final(self).wf(),
            final(self).frames() == old(self).frames(),
            final(self).screen() == old(self).screen(),
            final(self).write_index() == (old(self).write_index() + 1) % old(self).buffer_count(),
    {
        let len = ring_len(&self.buffers);
        self.current_index = (self.current_index + 1) % len;
    }

    /// Renders the most recently completed frame — never the current
    /// write target.
    pub fn render(&self) -> (r: String)
        requires
            self.wf(),
        ensures
            r@ == self.frames()[self.display_index()].buffer@,
    {
        let len = ring_len(&self.buffers);
        let disp = (self.current_index + len - 1) % len;
        let fb = ring_get(&self.buffers, disp);
        fb.render(&self.screen_size)
    }
}

/// Law: the displayed frame is never the write target, and nothing
/// written through the write target shows in `render`'s source until the
/// next advance. `after` is `before` with the frame at the write index
/// replaced by anything; the display index and the displayed frame are
/// unchanged.
pub proof fn lemma_render_ignores_write_target(
    before: RingBufferedRenderer,
    after: RingBufferedRenderer,
    b: FrameBuffer,
)
    requires
        before.wf(),
        after.frames() == before.frames().update(before.write_index(), b),
        after.write_index() == before.write_index(),
    ensures
        before.display_index() != before.write_index(),
        after.display_index() == before.display_index(),
        after.frames()[after.display_index()] == before.frames()[before.display_index()],
{
    let n = before.buffer_count();
    let wi = before.write_index();
    if wi == 0 {
        vstd::arithmetic::div_mod::lemma_small_mod((n - 1) as nat, n as nat);
        assert(before.display_index() == n - 1);
    } else {
        vstd::arithmetic::div_mod::lemma_mod_multiples_vanish(1, wi - 1, n);
        vstd::arithmetic::div_mod::lemma_small_mod((wi - 1) as nat, n as nat);
        assert(before.display_index() == wi - 1);
    }
}

/// One tick of the pipeline: clears the write target, rasterizes the cube
/// into it when a rotation transform is at hand, advances the ring, and
/// renders the frame just completed. Without a transform the tick still
/// runs and yields a blank frame, so a slow transform source never stalls
/// the loop.
pub fn render_tick(
    renderer: &mut RingBufferedRenderer,
    camera_settings: &CameraSettings,
    rotation_matrix: Option<&Mat3>,
    cube_width: i64,
) -> (r: String)
    requires
        old(renderer).wf(),
        camera_settings.valid(),
        0 <= cube_width <= CUBE_WIDTH_MAX,
        rotation_matrix matches Some(m) ==> mat_bounded(m@, MAT_MAX as int),
    ensures
        final(renderer).wf(),
        final(renderer).buffer_count() == old(renderer).buffer_count(),
        final(renderer).screen() == old(renderer).screen(),
        final(renderer).write_index() == (old(renderer).write_index() + 1) % old(
            renderer,
        ).buffer_count(),
        rotation_matrix is None ==> r@ == Seq::new(old(renderer).screen().area() as nat, |i: int| ' '),
        rotation_matrix matches Some(m) ==> r@ == draw_cube_spec(
            (
                Seq::new(old(renderer).screen().area() as nat, |i: int| ' '),
                Seq::new(old(renderer).screen().area() as nat, |i: int| 0i64),
            ),
            m@,
            cube_width as int,
            camera_settings.distance_from_cam as int,
            camera_settings.k1 as int,
            old(renderer).screen().width as int,
            old(renderer).screen().height as int,
        ).0,
{
    let scr = renderer.screen_size();
    let ghost wi = renderer.write_index();
    let ghost n = renderer.buffer_count();
    let target = renderer.current_buffer();
    target.clear(' ');
    match rotation_matrix {
        Some(m) => {
            draw_cube(target, &scr, camera_settings, m, cube_width);
        },
        None => {},
    }
    renderer.next_buffer();
    proof {
        if wi + 1 < n {
            vstd::arithmetic::div_mod::lemma_small_mod((wi + 1) as nat, n as nat);
            vstd::arithmetic::div_mod::lemma_mod_multiples_vanish(1, wi, n);
            vstd::arithmetic::div_mod::lemma_small_mod(wi as nat, n as nat);
        } else {
            vstd::arithmetic::div_mod::lemma_mod_self_0(n);
            vstd::arithmetic::div_mod::lemma_small_mod((n - 1) as nat, n as nat);
        }
        assert(renderer.display_index() == wi);
    }
    renderer.render()
}

} // verus!
