use vstd::prelude::*;
use super::collection::Screen;
use crate::components::layout::{can_center, centerable, centered_bounds, Bounds, EmptyBounds};
use crate::components::video::VideoWidget;
use crate::components::widget::{Drawable, Widget};
use crate::rendering::bitmap::{Bitmap, Pixels};
use crate::time::TimeSpan;

verus! {

/// Plays a video in the center of the screen, from its start each time the
/// screen is switched to.
pub struct StickFightScreen {
    widget: VideoWidget,
}

impl StickFightScreen {
    /// The video.
    pub closed spec fn video(&self) -> VideoWidget {
        self.widget
    }

    /// The canvas after the frame reached when `elapsed` has passed was
    /// drawn onto it where the frame that was showing is centered in
    /// `bounds`.
    pub open spec fn painted(&self, canvas: Pixels, bounds: Bounds, elapsed: TimeSpan) -> Pixels {
        self.video().painted(
            canvas,
            centered_bounds(self.video().extent(), bounds),
            elapsed,
        )
    }

    /// The video.
    pub fn widget(&self) -> (r: &VideoWidget)
        ensures
            *r == self.video(),
    {
        &self.widget
    }

    /// A screen that plays `widget`.
    pub fn new(widget: VideoWidget) -> (r: Self)
        requires
            widget.wf(),
        ensures
            r.wf(),
            r.video() == widget,
    {
        StickFightScreen { widget }
    }
}

impl Drawable for StickFightScreen {
    open spec fn wf(&self) -> bool {
        self.video().wf()
    }

    open spec fn fits(&self, canvas: Pixels, bounds: Bounds) -> bool {
        centerable(self.video().extent(), bounds)
    }

    open spec fn draws(
        &self,
        next: &Self,
        canvas: Pixels,
        result: Pixels,
        bounds: Bounds,
        elapsed: TimeSpan,
    ) -> bool {
        self.video().draws(
            &next.video(),
            canvas,
            result,
            centered_bounds(self.video().extent(), bounds),
            elapsed,
        )
    }

    fn can_draw(&self, canvas: &Bitmap, bounds: Bounds) -> (r: bool) {
        can_center(self.widget.size(), &bounds)
    }

    /// Plays the video in the center of `bounds`.
    fn draw(&mut self, canvas: &mut Bitmap, bounds: Bounds, elapsed: &TimeSpan) {
        let video_bounds = EmptyBounds::new().with_size(self.widget.size()).center_in(&bounds);
        self.widget.draw(canvas, video_bounds, elapsed);
    }
}

impl Screen for StickFightScreen {
    open spec fn mounts(&self, next: &Self) -> bool {
        &&& next.video().frames() == self.video().frames()
        &&& next.video().frame_time() == self.video().frame_time()
        &&& next.video().position() == 0
        &&& next.video().accumulated() == 0
    }

    /// Goes back to the start of the video.
    fn on_mount(&mut self) {
        self.widget.reset();
    }
}

} // verus!
