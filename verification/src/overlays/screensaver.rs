use vstd::prelude::*;
use crate::components::layout::Bounds;
use crate::components::video::VideoWidget;
use crate::components::widget::Drawable;
use crate::random::random_index;
use crate::rendering::bitmap::{Bitmap, Pixels};
use crate::time::TimeSpan;

verus! {

/// Plays one of several videos over everything else while it is shown.
pub struct ScreensaverOverlay {
    videos: Vec<VideoWidget>,
    current_video: Option<usize>,
}

impl ScreensaverOverlay {
    /// The videos.
    pub closed spec fn videos(&self) -> Seq<VideoWidget> {
        self.videos@
    }

    /// The index of the video that plays, if the screensaver is shown.
    pub closed spec fn current(&self) -> Option<usize> {
        self.current_video
    }

    /// A screensaver that plays one of `videos`. It is not shown.
    pub fn new(videos: Vec<VideoWidget>) -> (r: Self)
        requires
            forall|i: int| 0 <= i < videos@.len() ==> (#[trigger] videos@[i]).wf(),
        ensures
            r.wf(),
            r.videos() == videos@,
            r.current() is None,
    {
        ScreensaverOverlay { videos, current_video: None }
    }

    /// Shows the screensaver with the video at `index`.
    pub fn show_video(&mut self, index: usize)
        requires
            old(self).wf(),
            index < old(self).videos().len(),
        ensures
            final(self).wf(),
            final(self).videos() == old(self).videos(),
            final(self).current() == Some(index),
    {
        self.current_video = Some(index);
    }

    /// Shows the screensaver with a video picked at random. There must be a
    /// video to pick.
    pub fn show(&mut self)
        requires
            old(self).wf(),
            old(self).videos().len() > 0,
        ensures
            final(self).wf(),
            final(self).videos() == old(self).videos(),
            final(self).current() is Some,
            final(self).current()->0 < old(self).videos().len(),
    {
        let index = random_index(self.videos.len());
        self.show_video(index);
    }

    /// Hides the screensaver.
    pub fn dismiss(&mut self)
        requires
            old(self).wf(),
        ensures
            final(self).wf(),
            final(self).videos() == old(self).videos(),
            final(self).current() is None,
    {
        self.current_video = None;
    }

    /// The index of the video that plays, if the screensaver is shown.
    pub fn current_video(&self) -> (r: Option<usize>)
        ensures
            r == self.current(),
    {
        self.current_video
    }

    /// The number of videos.
    pub fn video_count(&self) -> (r: usize)
        ensures
            r == self.videos().len(),
    {
        self.videos.len()
    }

    /// Whether the screensaver is shown.
    pub fn is_shown(&self) -> (r: bool)
        ensures
            r == self.current() is Some,
    {
        self.current_video.is_some()
    }
}

impl Drawable for ScreensaverOverlay {
    open spec fn wf(&self) -> bool {
        &&& forall|i: int| 0 <= i < self.videos().len() ==> (#[trigger] self.videos()[i]).wf()
        &&& self.current() matches Some(index) ==> index < self.videos().len()
    }

    open spec fn fits(&self, canvas: Pixels, bounds: Bounds) -> bool {
        true
    }

    open spec fn draws(
        &self,
        next: &Self,
        canvas: Pixels,
        result: Pixels,
        bounds: Bounds,
        elapsed: TimeSpan,
    ) -> bool {
        &&& next.current() == self.current()
        &&& next.videos().len() == self.videos().len()
        &&& match self.current() {
            Some(index) => {
                &&& forall|i: int|
                    0 <= i < self.videos().len() && i != index ==> next.videos()[i]
                        == self.videos()[i]
                &&& self.videos()[index as int].draws(
                    &next.videos()[index as int],
                    canvas.cleared(),
                    result,
                    bounds,
                    elapsed,
                )
            },
            None => next.videos() == self.videos() && result == canvas,
        }
    }

    fn can_draw(&self, canvas: &Bitmap, bounds: Bounds) -> (r: bool) {
        true
    }

    /// While the screensaver is shown, clears the canvas and plays the
    /// current video with its top-left corner at that of `bounds`.
    fn draw(&mut self, canvas: &mut Bitmap, bounds: Bounds, elapsed: &TimeSpan) {
        if let Some(current_video) = self.current_video {
            canvas.clear();
            self.videos[current_video].draw(canvas, bounds, elapsed);
        }
    }
}

} // verus!
