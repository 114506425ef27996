use vstd::prelude::*;
use super::collection::Screen;
use crate::components::layout::{Bounds, EmptyBounds};
use crate::components::text::simple_text::SimpleTextWidget;
use crate::components::text::text_widget::TextWidget;
use crate::components::widget::{with_centered, Drawable, Widget};
use crate::rendering::bitmap::{Bitmap, Pixels};
use crate::rendering::text::{text_picture, Font};
use crate::time::TimeSpan;

verus! {

/// The local time of day as `chrono::Local::now()` gives it, written by its
/// `format("%H:%M")`. Nothing is claimed of the text: it depends on the
/// clock and the time zone of the machine.
#[verifier::external_body]
fn local_time_text() -> (r: String) {
    chrono::Local::now().format("%H:%M").to_string()
}

/// Shows the time of day in the center of the screen.
pub struct ClockScreen<'a> {
    clock_widget: SimpleTextWidget<'a>,
    date_widget: SimpleTextWidget<'a>,
}

impl<'a> ClockScreen<'a> {
    /// The widget that shows the time.
    pub closed spec fn clock(&self) -> SimpleTextWidget<'a> {
        self.clock_widget
    }

    /// The widget that shows the date.
    pub closed spec fn date(&self) -> SimpleTextWidget<'a> {
        self.date_widget
    }

    /// Whether drawing at a moment that the clock writes as `time` leaves
    /// the state `next` and the canvas `result`: the clock shows `time`,
    /// which is drawn in the center of `bounds`.
    pub open spec fn draws_time(
        &self,
        next: &Self,
        canvas: Pixels,
        result: Pixels,
        bounds: Bounds,
        time: Seq<char>,
    ) -> bool {
        &&& next.date() == self.date()
        &&& next.clock().typeface() == self.clock().typeface()
        &&& next.clock().content() == time
        &&& result == with_centered(canvas, bounds, text_picture(self.clock().typeface(), time))
    }

    /// A clock that shows the time in `clock_font`.
    pub fn new(clock_font: &'a Font, date_font: &'a Font) -> (r: Self)
        requires
            clock_font.wf(),
            date_font.wf(),
        ensures
            r.wf(),
            r.clock().content() == Seq::<char>::empty(),
            r.clock().typeface() == *clock_font,
            r.date().content() == Seq::<char>::empty(),
            r.date().typeface() == *date_font,
    {
        ClockScreen {
            clock_widget: SimpleTextWidget::new(String::new(), clock_font),
            date_widget: SimpleTextWidget::new(String::new(), date_font),
        }
    }

    /// The widget that shows the time.
    pub fn clock_widget(&self) -> (r: &SimpleTextWidget<'a>)
        ensures
            *r == self.clock(),
    {
        &self.clock_widget
    }

    /// Shows `time` and draws it in the center of `bounds`.
    pub fn draw_time(&mut self, canvas: &mut Bitmap, bounds: Bounds, elapsed: &TimeSpan, time: &str)
        requires
            old(self).wf(),
            old(canvas).wf(),
            bounds.modest(),
        ensures
            final(self).wf(),
            final(canvas).wf(),
            final(canvas)@.width == old(canvas)@.width,
            final(canvas)@.height == old(canvas)@.height,
            final(canvas)@.data.len() == old(canvas)@.data.len(),
            old(self).draws_time(final(self), old(canvas)@, final(canvas)@, bounds, time@),
    {
        self.clock_widget.set_text(time);
        let clock_bounds = EmptyBounds::new().with_size(self.clock_widget.size()).center_in(
            &bounds,
        );
        self.clock_widget.draw(canvas, clock_bounds, elapsed);
    }
}

impl<'a> Drawable for ClockScreen<'a> {
    open spec fn wf(&self) -> bool {
        self.clock().wf() && self.date().wf()
    }

    open spec fn fits(&self, canvas: Pixels, bounds: Bounds) -> bool {
        bounds.modest()
    }

    open spec fn draws(
        &self,
        next: &Self,
        canvas: Pixels,
        result: Pixels,
        bounds: Bounds,
        elapsed: TimeSpan,
    ) -> bool {
        exists|time: Seq<char>| #[trigger] self.draws_time(next, canvas, result, bounds, time)
    }

    fn can_draw(&self, canvas: &Bitmap, bounds: Bounds) -> (r: bool) {
        bounds.is_modest()
    }

    /// Shows the time of day that the clock of the machine gives and draws
    /// it in the center of `bounds`.
    fn draw(&mut self, canvas: &mut Bitmap, bounds: Bounds, elapsed: &TimeSpan) {
        let time = local_time_text();
        self.draw_time(canvas, bounds, elapsed, time.as_str());
    }
}

impl<'a> Screen for ClockScreen<'a> {
    open spec fn mounts(&self, next: &Self) -> bool {
        *next == *self
    }

    /// Nothing is to be done.
    fn on_mount(&mut self) {
    }
}

} // verus!
