//! A depth-annotated character grid holding one rendered frame.
//!
//! The two grids are parallel row-major arrays of equal length. The depth
//! grid stores fixed-point inverse distances: larger means nearer to the
//! camera, and zero means nothing has been drawn at that cell.

use vstd::prelude::*;
use vstd::pervasive::VecAdditionalExecFns;
use crate::screen::{ScreenSize, DIM_MAX};

verus! {

/// One frame: a character grid and its depth grid, both row-major.
pub struct FrameBuffer {
    pub buffer: Vec<char>,
    pub z_buffer: Vec<i64>,
}

/// Appends one character to a string.
///
/// Relies on `String::push`: it appends exactly the given character.
#[verifier::external_body]
fn push_char(s: &mut String, c: char)
    ensures
        final(s)@ == old(s)@.push(c),
{
    s.push(c);
}

impl FrameBuffer {
    /// Both grids cover the screen exactly, cell for cell.
    pub open spec fn wf(&self, screen: ScreenSize) -> bool {
        &&& self.buffer@.len() == screen.area()
        &&& self.z_buffer@.len() == screen.area()
    }

    /// Allocates a frame of blank characters and zero depths.
    pub fn new(width: usize, height: usize) -> (r: FrameBuffer)
        requires
            width <= DIM_MAX,
            height <= DIM_MAX,
        ensures
            r.buffer@ == Seq::new((width * height) as nat, |i: int| ' '),
            r.z_buffer@ == Seq::new((width * height) as nat, |i: int| 0i64),
    {
        proof {
            assert(width * height <= 0x1000_0000) by (nonlinear_arith)
                requires
                    width <= DIM_MAX,
                    height <= DIM_MAX,
            ;
        }
        let total: usize = width * height;
        let mut chars: Vec<char> = Vec::new();
        while chars.len() < total
            invariant
                chars@.len() <= total,
                forall|k: int| 0 <= k < chars@.len() ==> chars@[k] == ' ',
            decreases total - chars@.len(),
        {
            chars.push(' ');
        }
        let mut depths: Vec<i64> = Vec::new();
        while depths.len() < total
            invariant
                depths@.len() <= total,
                forall|k: int| 0 <= k < depths@.len() ==> depths@[k] == 0i64,
            decreases total - depths@.len(),
        {
            depths.push(0i64);
        }
        proof {
            assert(chars@ =~= Seq::new((width * height) as nat, |i: int| ' '));
            assert(depths@ =~= Seq::new((width * height) as nat, |i: int| 0i64));
        }
        FrameBuffer { buffer: chars, z_buffer: depths }
    }

    /// Resets every character cell to `clear_char` and every depth cell to
    /// zero, meaning "nothing drawn, infinitely far".
    pub fn clear(&mut self, clear_char: char)
        ensures
            final(self).buffer@ == Seq::new(old(self).buffer@.len(), |i: int| clear_char),
            final(self).z_buffer@ == Seq::new(old(self).z_buffer@.len(), |i: int| 0i64),
    {
        let n: usize = self.buffer.len();
        let mut i: usize = 0;
        while i < n
            invariant
                n == self.buffer@.len(),
                i <= n,
                self.z_buffer@ == old(self).z_buffer@,
                forall|k: int| 0 <= k < i ==> self.buffer@[k] == clear_char,
            decreases n - i,
        {
            self.buffer.set(i, clear_char);
            i = i + 1;
        }
        let m: usize = self.z_buffer.len();
        let mut j: usize = 0;
        while j < m
            invariant
                m == self.z_buffer@.len(),
                j <= m,
                self.buffer@.len() == n,
                forall|k: int| 0 <= k < n ==> self.buffer@[k] == clear_char,
                forall|k: int| 0 <= k < j ==> self.z_buffer@[k] == 0i64,
            decreases m - j,
        {
            self.z_buffer.set(j, 0i64);
            j = j + 1;
        }
        proof {
            assert(self.buffer@ =~= Seq::new(old(self).buffer@.len(), |i: int| clear_char));
            assert(self.z_buffer@ =~= Seq::new(old(self).z_buffer@.len(), |i: int| 0i64));
        }
    }

    /// Renders the frame to text: exactly `height` rows of `width`
    /// characters each, concatenated row-major with no separators. Writing
    /// the result from the cursor origin overwrites the previous frame in
    /// place.
    pub fn render(&self, screen: &ScreenSize) -> (r: String)
        requires
            self.wf(*screen),
        ensures
            r@ == self.buffer@,
    {
        let n: usize = self.buffer.len();
        let mut out = String::new();
        let mut i: usize = 0;
        while i < n
            invariant
                n == self.buffer@.len(),
                i <= n,
                out@ == self.buffer@.subrange(0, i as int),
            decreases n - i,
        {
            push_char(&mut out, self.buffer[i]);
            proof {
                assert(out@ =~= self.buffer@.subrange(0, i + 1));
            }
            i = i + 1;
        }
        proof {
            assert(self.buffer@.subrange(0, n as int) =~= self.buffer@);
        }
        out
    }
}

/// Law: `clear` followed immediately by `render` produces exactly
/// width times height background characters, and leaves a depth grid of
/// zeros, against which no stale depth comparison can succeed.
///
/// `post` is any state satisfying what `clear` ensures of `pre`, and
/// `rendered` any value satisfying what `render` ensures of `post`.
pub proof fn lemma_clear_then_render(
    pre: FrameBuffer,
    post: FrameBuffer,
    rendered: Seq<char>,
    screen: ScreenSize,
    c: char,
)
    requires
        pre.wf(screen),
        post.buffer@ == Seq::new(pre.buffer@.len(), |i: int| c),
        post.z_buffer@ == Seq::new(pre.z_buffer@.len(), |i: int| 0i64),
        rendered == post.buffer@,
    ensures
        rendered == Seq::new(screen.area() as nat, |i: int| c),
        rendered.len() == screen.width * screen.height,
        forall|k: int| 0 <= k < post.z_buffer@.len() ==> post.z_buffer@[k] == 0i64,
{
    assert(rendered =~= Seq::new(screen.area() as nat, |i: int| c));
}

} // verus!
