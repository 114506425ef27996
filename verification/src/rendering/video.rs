use vstd::prelude::*;
use vstd::arithmetic::div_mod::{lemma_fundamental_div_mod, lemma_fundamental_div_mod_converse};
use super::bitmap::{Bitmap, Pixels};

verus! {

/// An ordered, non-empty sequence of frames and the index of the current
/// one.
pub struct Video {
    frames: Vec<Bitmap>,
    pos: usize,
}

/// The frame index that lies `steps` frames after `pos` in a cyclic sequence
/// of `count` frames.
pub open spec fn frame_after(pos: int, steps: int, count: int) -> int {
    (pos + steps) % count
}

/// Stepping one frame after `steps` frames is stepping `steps + 1` frames.
pub proof fn lemma_frame_after_step(pos: int, steps: int, count: int)
    requires
        0 < count,
        0 <= pos,
        0 <= steps,
    ensures
        frame_after(frame_after(pos, steps, count), 1, count) == frame_after(
            pos,
            steps + 1,
            count,
        ),
        0 <= frame_after(pos, steps, count) < count,
{
    let n = pos + steps;
    lemma_fundamental_div_mod(n, count);
    let q = n / count;
    let r = n % count;
    assert(count * q == q * count) by (nonlinear_arith);
    if r + 1 < count {
        lemma_fundamental_div_mod_converse(n + 1, count, q, r + 1);
        lemma_fundamental_div_mod_converse(r + 1, count, 0, r + 1);
    } else {
        assert((q + 1) * count == q * count + count) by (nonlinear_arith);
        lemma_fundamental_div_mod_converse(n + 1, count, q + 1, 0);
        lemma_fundamental_div_mod_converse(r + 1, count, 1, 0);
    }
}

impl Video {
    /// The frames, each by its model.
    pub closed spec fn frames(&self) -> Seq<Pixels> {
        Seq::new(self.frames@.len(), |i: int| self.frames@[i]@)
    }

    /// The index of the current frame.
    pub closed spec fn position(&self) -> nat {
        self.pos as nat
    }

    /// There is at least one frame, every frame is well-formed and the
    /// position is the index of a frame.
    pub open spec fn wf(&self) -> bool {
        &&& self.frames().len() > 0
        &&& self.position() < self.frames().len()
        &&& forall|i: int| 0 <= i < self.frames().len() ==> (#[trigger] self.frames()[i]).wf()
    }

    /// A video of the given frames, of which there must be at least one,
    /// positioned at the first.
    pub fn from_frames(frames: Vec<Bitmap>) -> (r: Self)
        requires
            frames@.len() > 0,
            forall|i: int| 0 <= i < frames@.len() ==> (#[trigger] frames@[i]).wf(),
        ensures
            r.wf(),
            r.position() == 0,
            r.frames() == Seq::new(frames@.len(), |i: int| frames@[i]@),
    {
        Video { frames, pos: 0 }
    }

    /// The index of the current frame.
    pub fn frame_index(&self) -> (r: usize)
        ensures
            r == self.position(),
    {
        self.pos
    }

    /// The frame at `index`.
    pub fn frame(&self, index: usize) -> (r: &Bitmap)
        requires
            index < self.frames().len(),
        ensures
            r@ == self.frames()[index as int],
    {
        &self.frames[index]
    }

    /// The number of frames.
    pub fn frame_count(&self) -> (r: usize)
        ensures
            r == self.frames().len(),
    {
        self.frames.len()
    }

    /// Steps to the next frame, and from the last frame to the first.
    pub fn advance(&mut self)
        requires
            old(self).wf(),
        ensures
            final(self).wf(),
            final(self).frames() == old(self).frames(),
            final(self).position() == frame_after(
                old(self).position() as int,
                1,
                old(self).frames().len() as int,
            ),
    {
        assert(self.frames.len() <= usize::MAX);
        let next = (self.pos + 1) % self.frames.len();
        self.pos = next;
    }

    /// Goes back to the first frame.
    pub fn reset(&mut self)
        requires
            old(self).wf(),
        ensures
            final(self).wf(),
            final(self).frames() == old(self).frames(),
            final(self).position() == 0,
    {
        self.pos = 0;
    }

    /// The frame at the current position.
    pub fn current_frame(&self) -> (r: &Bitmap)
        requires
            self.wf(),
        ensures
            r.wf(),
            r@ == self.frames()[self.position() as int],
    {
        assert(self.frames()[self.pos as int].wf());
        &self.frames[self.pos]
    }
}

} // verus!
