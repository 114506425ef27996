use vstd::prelude::*;
use super::collection::Screen;
use crate::components::layout::{centered_bounds, cover, Bounds, EmptyBounds, MAX_EXTENT};
use crate::components::video::VideoWidget;
use crate::components::widget::{Drawable, Widget};
use crate::random::random_index;
use crate::rendering::bitmap::{Bitmap, Pixels};
use crate::time::TimeSpan;

verus! {

/// Plays, in the center of the canvas, one of several videos: another one,
/// picked at random, each time the screen is switched to.
pub struct RandomVideosScreen {
    videos: Vec<VideoWidget>,
    current_video: usize,
}

impl RandomVideosScreen {
    /// The videos.
    pub closed spec fn videos(&self) -> Seq<VideoWidget> {
        self.videos@
    }

    /// The index of the video that plays.
    pub closed spec fn current(&self) -> int {
        self.current_video as int
    }

    /// A screen that plays one of `videos`, of which there must be one at
    /// least; at first the first one.
    pub fn new(videos: Vec<VideoWidget>) -> (r: Self)
        requires
            videos@.len() > 0,
            forall|i: int| 0 <= i < videos@.len() ==> (#[trigger] videos@[i]).wf(),
        ensures
            r.wf(),
            r.videos() == videos@,
            r.current() == 0,
    {
        RandomVideosScreen { videos, current_video: 0 }
    }

    /// Makes the video at `index` the one that plays.
    pub fn select(&mut self, index: usize)
        requires
            old(self).wf(),
            index < old(self).videos().len(),
        ensures
            final(self).wf(),
            final(self).videos() == old(self).videos(),
            final(self).current() == index,
    {
        self.current_video = index;
    }

    /// The index of the video that plays.
    pub fn current_video(&self) -> (r: usize)
        ensures
            r == self.current(),
    {
        self.current_video
    }
}

impl Drawable for RandomVideosScreen {
    open spec fn wf(&self) -> bool {
        &&& 0 <= self.current() < self.videos().len()
        &&& forall|i: int| 0 <= i < self.videos().len() ==> (#[trigger] self.videos()[i]).wf()
    }

    open spec fn fits(&self, canvas: Pixels, bounds: Bounds) -> bool {
        canvas.width <= MAX_EXTENT && canvas.height <= MAX_EXTENT
    }

    open spec fn draws(
        &self,
        next: &Self,
        canvas: Pixels,
        result: Pixels,
        bounds: Bounds,
        elapsed: TimeSpan,
    ) -> bool {
        &&& next.current() == self.current()
        &&& next.videos().len() == self.videos().len()
        &&& forall|i: int|
            0 <= i < self.videos().len() && i != self.current() ==> next.videos()[i]
                == self.videos()[i]
        &&& self.videos()[self.current()].draws(
            &next.videos()[self.current()],
            canvas,
            result,
            centered_bounds(self.videos()[self.current()].extent(), cover(canvas)),
            elapsed,
        )
    }

    fn can_draw(&self, canvas: &Bitmap, bounds: Bounds) -> (r: bool) {
        canvas.width <= MAX_EXTENT as usize && canvas.height <= MAX_EXTENT as usize
    }

    /// Plays the current video in the center of the canvas.
    fn draw(&mut self, canvas: &mut Bitmap, bounds: Bounds, elapsed: &TimeSpan) {
        let canvas_bounds = Bounds::cover_bitmap(canvas);
        let bounds = EmptyBounds::new().with_size(
            self.videos[self.current_video].size(),
        ).center_in(&canvas_bounds);
        self.videos[self.current_video].draw(canvas, bounds, elapsed);
    }
}

impl Screen for RandomVideosScreen {
    open spec fn mounts(&self, next: &Self) -> bool {
        next.videos() == self.videos()
    }

    /// Picks the video to play at random.
    fn on_mount(&mut self) {
        let index = random_index(self.videos.len());
        self.select(index);
    }
}

} // verus!
