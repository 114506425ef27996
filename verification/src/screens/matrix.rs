use vstd::prelude::*;
use super::collection::Screen;
use crate::components::layout::Bounds;
use crate::components::widget::Drawable;
use crate::rendering::bitmap::{Bitmap, Pixels};
use crate::time::TimeSpan;

verus! {

/// A screen that shows nothing.
pub struct MatrixScreen {}

impl MatrixScreen {
    /// A screen that shows nothing.
    pub fn new() -> (r: Self)
        ensures
            r.wf(),
    {
        MatrixScreen {  }
    }
}

impl Drawable for MatrixScreen {
    open spec fn wf(&self) -> bool {
        true
    }

    open spec fn fits(&self, canvas: Pixels, bounds: Bounds) -> bool {
        true
    }

    open spec fn draws(
        &self,
        next: &Self,
        canvas: Pixels,
        result: Pixels,
        bounds: Bounds,
        elapsed: TimeSpan,
    ) -> bool {
        *next == *self && result == canvas
    }

    fn can_draw(&self, canvas: &Bitmap, bounds: Bounds) -> (r: bool) {
        true
    }

    /// Draws nothing.
    fn draw(&mut self, canvas: &mut Bitmap, bounds: Bounds, elapsed: &TimeSpan) {
    }
}

impl Screen for MatrixScreen {
    open spec fn mounts(&self, next: &Self) -> bool {
        *next == *self
    }

    /// Nothing is to be done.
    fn on_mount(&mut self) {
    }
}

} // verus!
