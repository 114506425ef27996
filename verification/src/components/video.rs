use vstd::prelude::*;
use vstd::arithmetic::div_mod::lemma_fundamental_div_mod_converse;
use super::layout::{Bounds, Size};
use super::widget::{Drawable, Widget};
use crate::rendering::bitmap::{Bitmap, Pixels};
use crate::rendering::video::{frame_after, lemma_frame_after_step, Video};
use crate::time::TimeSpan;

verus! {

/// Plays a video at a fixed frame rate, whatever the rate at which it is
/// drawn.
pub struct VideoWidget {
    video: Video,
    time_per_frame: TimeSpan,
    time: TimeSpan,
}

/// The number of frames to step when `total` nanoseconds have accumulated
/// and a frame lasts `frame_time` nanoseconds: one for every time that
/// `frame_time` can be taken away while more than `frame_time` is left.
pub open spec fn frames_due(total: int, frame_time: int) -> int {
    if total <= 0 {
        0
    } else {
        (total - 1) / frame_time
    }
}

/// The accumulated time that is left when the frames that are due have been
/// stepped.
pub open spec fn time_left(total: int, frame_time: int) -> int {
    total - frames_due(total, frame_time) * frame_time
}

/// If, after `steps` frames were stepped, no more than one frame time and,
/// unless nothing had accumulated, more than nothing is left, then `steps`
/// is the number of frames that were due.
pub proof fn lemma_frames_due(total: int, frame_time: int, steps: int)
    requires
        0 < frame_time,
        0 <= steps,
        0 <= total - steps * frame_time <= frame_time,
        total - steps * frame_time == 0 ==> steps == 0,
    ensures
        frames_due(total, frame_time) == steps,
        time_left(total, frame_time) == total - steps * frame_time,
{
    if total > 0 {
        let rest = total - steps * frame_time;
        lemma_fundamental_div_mod_converse(total - 1, frame_time, steps, rest - 1);
    } else {
        assert(steps * frame_time >= 0) by (nonlinear_arith)
            requires
                0 <= steps,
                0 < frame_time,
        ;
    }
}

/// Time that was already accumulating, advanced by exactly `k` frame times,
/// steps exactly `k` frames and leaves what had accumulated.
pub proof fn lemma_whole_frames(accumulated: int, frame_time: int, k: int)
    requires
        0 < accumulated <= frame_time,
        0 <= k,
    ensures
        frames_due(accumulated + k * frame_time, frame_time) == k,
        time_left(accumulated + k * frame_time, frame_time) == accumulated,
{
    lemma_frames_due(accumulated + k * frame_time, frame_time, k);
}

/// Right after a reset, advancing by exactly `k` frame times leaves the
/// last of them accumulated: one frame fewer is stepped.
pub proof fn lemma_whole_frames_from_zero(frame_time: int, k: int)
    requires
        0 < frame_time,
        0 < k,
    ensures
        frames_due(k * frame_time, frame_time) == k - 1,
        time_left(k * frame_time, frame_time) == frame_time,
{
    assert(k * frame_time - (k - 1) * frame_time == frame_time) by (nonlinear_arith);
    lemma_frames_due(k * frame_time, frame_time, k - 1);
}

/// While no more than one frame time has accumulated, no frame is stepped
/// and all the time is kept.
pub proof fn lemma_short_advance(accumulated: int, elapsed: int, frame_time: int)
    requires
        0 < frame_time,
        0 <= accumulated,
        0 <= elapsed,
        accumulated + elapsed <= frame_time,
    ensures
        frames_due(accumulated + elapsed, frame_time) == 0,
        time_left(accumulated + elapsed, frame_time) == accumulated + elapsed,
{
    lemma_frames_due(accumulated + elapsed, frame_time, 0);
}

/// A frame that does not let more than one frame time accumulate keeps the
/// frame that is showing and keeps all the time.
pub proof fn lemma_short_draw(widget: &VideoWidget, elapsed: TimeSpan)
    requires
        widget.wf(),
        widget.accumulated() + elapsed.nanos <= widget.frame_time(),
    ensures
        widget.position_after(elapsed) == widget.position(),
        time_left(widget.accumulated() + elapsed.nanos, widget.frame_time() as int)
            == widget.accumulated() + elapsed.nanos,
{
    lemma_short_advance(
        widget.accumulated() as int,
        elapsed.nanos as int,
        widget.frame_time() as int,
    );
    lemma_fundamental_div_mod_converse(
        widget.position() as int,
        widget.frames().len() as int,
        0,
        widget.position() as int,
    );
}

/// While time is accumulating, a frame that lasts exactly `k` frame times
/// steps `k` frames, around the end of the video to its start, and keeps
/// what had accumulated.
pub proof fn lemma_whole_draw(widget: &VideoWidget, elapsed: TimeSpan, k: int)
    requires
        widget.wf(),
        0 < widget.accumulated() <= widget.frame_time(),
        0 <= k,
        elapsed.nanos == k * widget.frame_time(),
    ensures
        widget.position_after(elapsed) == (widget.position() + k) % (
        widget.frames().len() as int),
        time_left(widget.accumulated() + elapsed.nanos, widget.frame_time() as int)
            == widget.accumulated(),
{
    lemma_whole_frames(widget.accumulated() as int, widget.frame_time() as int, k);
}

impl VideoWidget {
    /// The frames of the video.
    pub closed spec fn frames(&self) -> Seq<Pixels> {
        self.video.frames()
    }

    /// The index of the frame that is showing.
    pub closed spec fn position(&self) -> nat {
        self.video.position()
    }

    /// The time, in nanoseconds, that a frame lasts.
    pub closed spec fn frame_time(&self) -> nat {
        self.time_per_frame.nanos as nat
    }

    /// The time, in nanoseconds, that has accumulated toward the next
    /// frame.
    pub closed spec fn accumulated(&self) -> nat {
        self.time.nanos as nat
    }

    /// The frame that is showing.
    pub open spec fn current(&self) -> Pixels {
        self.frames()[self.position() as int]
    }

    /// The position after `elapsed` has passed.
    pub open spec fn position_after(&self, elapsed: TimeSpan) -> int {
        frame_after(
            self.position() as int,
            frames_due(self.accumulated() + elapsed.nanos, self.frame_time() as int),
            self.frames().len() as int,
        )
    }

    /// The canvas after the frame reached when `elapsed` has passed was
    /// drawn onto it with its top-left corner at that of `bounds`.
    pub open spec fn painted(&self, canvas: Pixels, bounds: Bounds, elapsed: TimeSpan) -> Pixels {
        canvas.with_bitmap(
            bounds.pos.x as int,
            bounds.pos.y as int,
            self.frames()[self.position_after(elapsed)],
        )
    }

    /// A widget that plays `video` from its current frame, each frame
    /// lasting `time_per_frame`, which must not be empty.
    pub fn new(video: Video, time_per_frame: TimeSpan) -> (r: Self)
        requires
            video.wf(),
            time_per_frame.nanos > 0,
            forall|i: int|
                0 <= i < video.frames().len() ==> (#[trigger] video.frames()[i]).width
                    <= u32::MAX && video.frames()[i].height <= u32::MAX,
        ensures
            r.wf(),
            r.frames() == video.frames(),
            r.position() == video.position(),
            r.frame_time() == time_per_frame.nanos,
            r.accumulated() == 0,
    {
        VideoWidget { video, time_per_frame, time: TimeSpan::zero() }
    }

    /// The index of the frame that is showing.
    pub fn frame_index(&self) -> (r: usize)
        ensures
            r == self.position(),
    {
        self.video.frame_index()
    }

    /// The time that has accumulated toward the next frame.
    pub fn accumulated_time(&self) -> (r: TimeSpan)
        ensures
            r.nanos == self.accumulated(),
    {
        self.time
    }

    /// Goes back to the first frame and forgets the accumulated time.
    pub fn reset(&mut self)
        requires
            old(self).wf(),
        ensures
            final(self).wf(),
            final(self).frames() == old(self).frames(),
            final(self).frame_time() == old(self).frame_time(),
            final(self).position() == 0,
            final(self).accumulated() == 0,
    {
        self.video.reset();
        self.time = TimeSpan::zero();
    }
}

impl Drawable for VideoWidget {
    open spec fn wf(&self) -> bool {
        &&& self.frames().len() > 0
        &&& self.position() < self.frames().len()
        &&& self.frame_time() > 0
        &&& forall|i: int|
            0 <= i < self.frames().len() ==> {
                &&& (#[trigger] self.frames()[i]).wf()
                &&& self.frames()[i].width <= u32::MAX
                &&& self.frames()[i].height <= u32::MAX
            }
    }

    open spec fn fits(&self, canvas: Pixels, bounds: Bounds) -> bool {
        true
    }

    open spec fn draws(
        &self,
        next: &Self,
        canvas: Pixels,
        result: Pixels,
        bounds: Bounds,
        elapsed: TimeSpan,
    ) -> bool {
        &&& next.frames() == self.frames()
        &&& next.frame_time() == self.frame_time()
        &&& next.position() == self.position_after(elapsed)
        &&& next.accumulated() == time_left(
            self.accumulated() + elapsed.nanos,
            self.frame_time() as int,
        )
        &&& result == self.painted(canvas, bounds, elapsed)
    }

    fn can_draw(&self, canvas: &Bitmap, bounds: Bounds) -> (r: bool) {
        true
    }

    /// Accumulates `elapsed`, steps one frame for every frame time that can
    /// be taken away while more than one frame time is left, and blits the
    /// frame reached with its top-left corner at that of `bounds`.
    fn draw(&mut self, canvas: &mut Bitmap, bounds: Bounds, elapsed: &TimeSpan) {
        let frame_time: u128 = self.time_per_frame.nanos as u128;
        let mut total: u128 = self.time.nanos as u128 + elapsed.nanos as u128;
        let ghost start = total as int;
        let ghost steps: int = 0;
        let ghost count = self.video.frames().len() as int;
        let ghost first = self.video.position() as int;
        proof {
            lemma_frame_after_step(first, 0, count);
            lemma_fundamental_div_mod_converse(first, count, 0, first);
        }
        while total > frame_time
            invariant
                self.wf(),
                self.video.frames() == old(self).video.frames(),
                self.time_per_frame == old(self).time_per_frame,
                frame_time == self.time_per_frame.nanos,
                count == self.video.frames().len(),
                0 <= first,
                0 <= steps,
                total == start - steps * frame_time,
                0 < total || steps == 0,
                self.video.position() == frame_after(first, steps, count),
            decreases total,
        {
            total -= frame_time;
            self.video.advance();
            proof {
                lemma_frame_after_step(first, steps, count);
                assert((steps + 1) * frame_time == steps * frame_time + frame_time)
                    by (nonlinear_arith);
                steps = steps + 1;
            }
        }
        proof {
            lemma_frames_due(start, frame_time as int, steps);
        }
        self.time = TimeSpan::from_nanos(total as u64);
        let frame = self.video.current_frame();
        canvas.draw_bitmap(bounds.pos.x, bounds.pos.y, frame);
    }
}

impl Widget<u32, u32> for VideoWidget {
    open spec fn extent(&self) -> Size<u32, u32> {
        Size { width: self.current().width as u32, height: self.current().height as u32 }
    }

    /// The pixel dimensions of the frame that is showing.
    fn size(&self) -> (r: Size<u32, u32>) {
        let frame = self.video.current_frame();
        Size { width: frame.width as u32, height: frame.height as u32 }
    }
}

} // verus!
