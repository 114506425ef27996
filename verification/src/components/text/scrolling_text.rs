use vstd::prelude::*;
use super::simple_text::SimpleTextWidget;
use super::text_widget::TextWidget;
use crate::components::layout::{centered, Bounds, EmptyBounds, Size};
use crate::components::widget::{Drawable, Widget};
use crate::rendering::bitmap::{Bitmap, Pixels};
use crate::rendering::text::Font;
use crate::time::TimeSpan;

verus! {

/// The text scrolling speed in pixels per second, which is the speed in
/// billionths of a pixel per nanosecond.
pub const SCROLL_SPEED: u64 = 40;

/// The number of scroll distance units in a pixel.
pub const DISTANCE_PER_PIXEL: u64 = 1_000_000_000;

/// Where a text stands that fits into its bounds.
#[derive(Clone, Copy, Debug, PartialEq, Eq, Structural)]
pub enum Alignment {
    Left,
    Center,
    Right,
}

/// The phase of the scrolling cycle of a text wider than its bounds.
#[derive(Clone, Copy, Debug, PartialEq, Eq, Structural)]
pub enum ScrollingState {
    /// Standing left-aligned for the time given.
    WaitingStart(TimeSpan),
    /// Moving left; it has moved by the distance given, in billionths of a
    /// pixel.
    Moving(u64),
    /// Standing right-aligned for the time given.
    WaitingEnd(TimeSpan),
}

/// The distance scrolled after `elapsed` more has passed: the speed times
/// `elapsed` is added, up to the largest distance there is.
pub open spec fn distance_after(distance: u64, elapsed: TimeSpan) -> int {
    let moved = distance + SCROLL_SPEED * elapsed.nanos;
    if moved <= u64::MAX {
        moved
    } else {
        u64::MAX as int
    }
}

/// How many whole pixels to the left of its start a text is drawn that has
/// scrolled by `distance`: the fraction of a pixel is dropped.
pub open spec fn scrolled_pixels(distance: int) -> int {
    distance / (DISTANCE_PER_PIXEL as int)
}

/// Whether the right edge of a text of `text_width` pixels that has
/// scrolled by `distance` stands strictly within bounds of `widget_width`
/// pixels.
pub open spec fn edge_inside(distance: int, text_width: u32, widget_width: u32) -> bool {
    text_width * DISTANCE_PER_PIXEL - distance < widget_width * DISTANCE_PER_PIXEL
}

impl ScrollingState {
    /// The phase that follows this one when `elapsed` has passed, for a text
    /// of `text_width` pixels in bounds of `widget_width` pixels.
    ///
    /// Waiting at the start ends when the wait is used up; what `elapsed`
    /// holds beyond it is dropped. Moving ends as soon as the right edge of
    /// the text stands strictly within the bounds. Waiting at the end ends
    /// when the wait is used up; what `elapsed` holds beyond it is taken off
    /// the wait at the start that follows.
    pub open spec fn after(
        self,
        elapsed: TimeSpan,
        text_width: u32,
        widget_width: u32,
        wait_start: TimeSpan,
        wait_end: TimeSpan,
    ) -> ScrollingState {
        match self {
            ScrollingState::WaitingStart(remaining) => if remaining.nanos > elapsed.nanos {
                ScrollingState::WaitingStart(
                    TimeSpan { nanos: (remaining.nanos - elapsed.nanos) as u64 },
                )
            } else {
                ScrollingState::Moving(0)
            },
            ScrollingState::Moving(distance) => if edge_inside(
                distance_after(distance, elapsed),
                text_width,
                widget_width,
            ) {
                ScrollingState::WaitingEnd(wait_end)
            } else {
                ScrollingState::Moving(distance_after(distance, elapsed) as u64)
            },
            ScrollingState::WaitingEnd(remaining) => if remaining.nanos > elapsed.nanos {
                ScrollingState::WaitingEnd(
                    TimeSpan { nanos: (remaining.nanos - elapsed.nanos) as u64 },
                )
            } else if wait_start.nanos >= elapsed.nanos - remaining.nanos {
                ScrollingState::WaitingStart(
                    TimeSpan {
                        nanos: (wait_start.nanos - (elapsed.nanos - remaining.nanos)) as u64,
                    },
                )
            } else {
                ScrollingState::WaitingStart(TimeSpan { nanos: 0 })
            },
        }
    }

    /// Computes [`ScrollingState::after`].
    pub fn step(
        self,
        elapsed: &TimeSpan,
        text_width: u32,
        widget_width: u32,
        wait_start: TimeSpan,
        wait_end: TimeSpan,
    ) -> (r: ScrollingState)
        ensures
            r == self.after(*elapsed, text_width, widget_width, wait_start, wait_end),
    {
        match self {
            ScrollingState::WaitingStart(remaining) => {
                let new_remaining = remaining.saturating_sub(*elapsed);
                if !new_remaining.is_zero() {
                    ScrollingState::WaitingStart(new_remaining)
                } else {
                    ScrollingState::Moving(0)
                }
            },
            ScrollingState::Moving(distance) => {
                let moved: u128 = distance as u128 + (SCROLL_SPEED as u128) * (
                elapsed.nanos as u128);
                let distance: u64 = if moved <= u64::MAX as u128 {
                    moved as u64
                } else {
                    u64::MAX
                };
                assert(DISTANCE_PER_PIXEL == 1_000_000_000);
                if (text_width as i128) * 1_000_000_000 - (distance as i128) < (
                widget_width as i128) * 1_000_000_000 {
                    ScrollingState::WaitingEnd(wait_end)
                } else {
                    ScrollingState::Moving(distance)
                }
            },
            ScrollingState::WaitingEnd(remaining) => {
                let new_remaining = remaining.saturating_sub(*elapsed);
                if !new_remaining.is_zero() {
                    ScrollingState::WaitingEnd(new_remaining)
                } else {
                    let carry_over = elapsed.saturating_sub(remaining);
                    ScrollingState::WaitingStart(wait_start.saturating_sub(carry_over))
                }
            },
        }
    }
}

/// While a text moves, what matters is the time that has passed, not the
/// frames into which it was cut: two frames in a row leave the phase that
/// one frame as long as both leaves.
pub proof fn lemma_moving_is_additive(
    distance: u64,
    first: TimeSpan,
    second: TimeSpan,
    text_width: u32,
    widget_width: u32,
    wait_start: TimeSpan,
    wait_end: TimeSpan,
)
    requires
        first.nanos + second.nanos <= u64::MAX,
        ScrollingState::Moving(distance).after(
            first,
            text_width,
            widget_width,
            wait_start,
            wait_end,
        ) is Moving,
    ensures
        ScrollingState::Moving(distance).after(
            first,
            text_width,
            widget_width,
            wait_start,
            wait_end,
        ).after(second, text_width, widget_width, wait_start, wait_end) == ScrollingState::Moving(
            distance,
        ).after(
            TimeSpan { nanos: (first.nanos + second.nanos) as u64 },
            text_width,
            widget_width,
            wait_start,
            wait_end,
        ),
{
}

/// The column at which a text of `text_width` pixels is drawn into
/// `bounds`. A text that fits stands as `alignment` says. A wider text
/// stands as its scrolling phase says: left-aligned while it waits at the
/// start, moved left by what it has scrolled while it moves, right-aligned
/// while it waits at the end.
pub open spec fn text_left(
    state: ScrollingState,
    alignment: Alignment,
    bounds: Bounds,
    text_width: u32,
) -> int {
    if bounds.size.width >= text_width {
        match alignment {
            Alignment::Left => bounds.pos.x as int,
            Alignment::Center => centered(
                bounds.pos.x as int,
                bounds.size.width as int,
                text_width as int,
            ),
            Alignment::Right => bounds.pos.x + bounds.size.width - text_width,
        }
    } else {
        match state {
            ScrollingState::WaitingStart(_) => bounds.pos.x as int,
            ScrollingState::Moving(distance) => bounds.pos.x - scrolled_pixels(distance as int),
            ScrollingState::WaitingEnd(_) => bounds.pos.x + bounds.size.width - text_width,
        }
    }
}

/// The phase of a text of `text_width` pixels after `elapsed` has passed in
/// bounds of `widget_width` pixels: that of the scrolling cycle where the
/// text is wider than the bounds; where it fits, the phase stays.
pub open spec fn cycle_after(
    phase: ScrollingState,
    elapsed: TimeSpan,
    text_width: u32,
    widget_width: u32,
    wait_start: TimeSpan,
    wait_end: TimeSpan,
) -> ScrollingState {
    if widget_width >= text_width {
        phase
    } else {
        phase.after(elapsed, text_width, widget_width, wait_start, wait_end)
    }
}

/// `canvas` with the text whose image is `image` drawn onto it into
/// `bounds`, in the phase `phase` of its scrolling cycle.
pub open spec fn with_text(
    canvas: Pixels,
    bounds: Bounds,
    phase: ScrollingState,
    alignment: Alignment,
    image: Pixels,
) -> Pixels {
    canvas.with_bitmap(
        text_left(phase, alignment, bounds, image.width as u32),
        bounds.pos.y as int,
        image,
    )
}

/// Text that will periodically scroll to show all of its contents, if it
/// does not fit within its bounds.
pub struct ScrollingTextWidget<'a> {
    state: ScrollingState,
    text: SimpleTextWidget<'a>,
    default_alignment: Alignment,
    wait_start: TimeSpan,
    wait_end: TimeSpan,
}

impl<'a> ScrollingTextWidget<'a> {
    /// The phase of the scrolling cycle.
    pub closed spec fn phase(&self) -> ScrollingState {
        self.state
    }

    /// The text inside.
    pub closed spec fn inner(&self) -> SimpleTextWidget<'a> {
        self.text
    }

    /// The alignment of a text that fits.
    pub closed spec fn alignment(&self) -> Alignment {
        self.default_alignment
    }

    /// The time for which the text stands at its start.
    pub closed spec fn start_wait(&self) -> TimeSpan {
        self.wait_start
    }

    /// The time for which the text stands at its end.
    pub closed spec fn end_wait(&self) -> TimeSpan {
        self.wait_end
    }

    /// The width of the text in pixels.
    pub open spec fn text_width(&self) -> u32 {
        self.inner().extent().width
    }

    /// Whether `other` differs from this widget in its phase at most.
    pub open spec fn same_but_phase(&self, other: &Self) -> bool {
        &&& other.inner() == self.inner()
        &&& other.alignment() == self.alignment()
        &&& other.start_wait() == self.start_wait()
        &&& other.end_wait() == self.end_wait()
    }

    /// The phase after `elapsed` has passed in bounds of `widget_width`
    /// pixels: that of the scrolling cycle where the text is wider than the
    /// bounds; where it fits, the phase stays.
    pub open spec fn phase_after(&self, elapsed: TimeSpan, widget_width: u32) -> ScrollingState {
        cycle_after(
            self.phase(),
            elapsed,
            self.text_width(),
            widget_width,
            self.start_wait(),
            self.end_wait(),
        )
    }

    /// The canvas after the text was drawn onto it into `bounds`, `elapsed`
    /// after the frame before.
    pub open spec fn painted(&self, canvas: Pixels, bounds: Bounds, elapsed: TimeSpan) -> Pixels {
        with_text(
            canvas,
            bounds,
            self.phase_after(elapsed, bounds.size.width),
            self.alignment(),
            self.inner().image(),
        )
    }

    /// Creates a new scrolling text widget.
    ///
    /// `text` - The initial text to display
    /// `font` - The font to render
    /// `default_alignment` - The alignment to use when the bounds are larger than the text
    /// `wait_start` - The time to wait after resetting until the text starts scrolling again
    /// `wait_end` - The time to wait after finishing scrolling until the text resets
    pub fn new(
        text: String,
        font: &'a Font,
        default_alignment: Alignment,
        wait_start: TimeSpan,
        wait_end: TimeSpan,
    ) -> (r: Self)
        requires
            font.wf(),
        ensures
            r.wf(),
            r.phase() == ScrollingState::WaitingStart(wait_start),
            r.inner().content() == text@,
            r.inner().typeface() == *font,
            r.alignment() == default_alignment,
            r.start_wait() == wait_start,
            r.end_wait() == wait_end,
    {
        ScrollingTextWidget {
            state: ScrollingState::WaitingStart(wait_start),
            text: SimpleTextWidget::new(text, font),
            default_alignment,
            wait_start,
            wait_end,
        }
    }

    /// The phase of the scrolling cycle.
    pub fn state(&self) -> (r: ScrollingState)
        ensures
            r == self.phase(),
    {
        self.state
    }

    /// The widget that shows the text.
    pub fn text_widget(&self) -> (r: &SimpleTextWidget<'a>)
        ensures
            *r == self.inner(),
    {
        &self.text
    }

    /// Moves the scrolling cycle on by `elapsed`, unless the text fits into
    /// `widget_width` pixels.
    fn update(&mut self, elapsed: &TimeSpan, widget_width: u32)
        requires
            old(self).wf(),
        ensures
            final(self).wf(),
            old(self).same_but_phase(final(self)),
            final(self).phase() == old(self).phase_after(*elapsed, widget_width),
    {
        let text_width = self.text.size().width;
        if widget_width < text_width {
            self.state = self.state.step(
                elapsed,
                text_width,
                widget_width,
                self.wait_start,
                self.wait_end,
            );
        }
    }
}

/// A scrolling text can be drawn into any bounds that do not begin left of
/// the origin and whose right edge is within the range of a coordinate.
pub proof fn lemma_scrolling_fits(widget: &ScrollingTextWidget, canvas: Pixels, bounds: Bounds)
    requires
        widget.wf(),
        0 <= bounds.pos.x,
        bounds.pos.x + bounds.size.width <= i32::MAX,
    ensures
        widget.fits(canvas, bounds),
{
    widget.inner().lemma_height();
}

impl<'a> TextWidget<(), u32> for ScrollingTextWidget<'a> {
    open spec fn text(&self) -> Seq<char> {
        self.inner().content()
    }

    open spec fn shows(&self, next: &Self, text: Seq<char>) -> bool {
        &&& next.phase() == ScrollingState::WaitingStart(self.start_wait())
        &&& next.alignment() == self.alignment()
        &&& next.start_wait() == self.start_wait()
        &&& next.end_wait() == self.end_wait()
        &&& next.inner().typeface() == self.inner().typeface()
    }

    /// Replaces the text and starts the scrolling cycle anew, unless it is
    /// the text already shown.
    fn set_text(&mut self, text: &str) -> (changed: bool) {
        if self.text.set_text(text) {
            self.state = ScrollingState::WaitingStart(self.wait_start);
            return true;
        }
        false
    }
}

impl<'a> Drawable for ScrollingTextWidget<'a> {
    open spec fn wf(&self) -> bool {
        self.inner().wf()
    }

    open spec fn fits(&self, canvas: Pixels, bounds: Bounds) -> bool {
        &&& bounds.pos.x + bounds.size.width <= i32::MAX
        &&& i32::MIN <= bounds.pos.x - self.text_width()
    }

    open spec fn draws(
        &self,
        next: &Self,
        canvas: Pixels,
        result: Pixels,
        bounds: Bounds,
        elapsed: TimeSpan,
    ) -> bool {
        &&& self.same_but_phase(next)
        &&& next.phase() == self.phase_after(elapsed, bounds.size.width)
        &&& result == self.painted(canvas, bounds, elapsed)
    }

    fn can_draw(&self, canvas: &Bitmap, bounds: Bounds) -> (r: bool) {
        bounds.pos.x as i64 + bounds.size.width as i64 <= i32::MAX as i64 && i32::MIN as i64
            <= bounds.pos.x as i64 - self.text.size().width as i64
    }

    /// Moves the scrolling cycle on and blits the text where it then
    /// stands.
    fn draw(&mut self, canvas: &mut Bitmap, bounds: Bounds, elapsed: &TimeSpan) {
        self.update(elapsed, bounds.size.width);

        let text_size = self.text.size();
        let x: i32 = if bounds.size.width >= text_size.width {
            match self.default_alignment {
                Alignment::Left => bounds.pos.x,
                Alignment::Center => EmptyBounds::new().with_width(text_size.width).center_hor_in(
                    &bounds,
                ).pos.x,
                Alignment::Right => bounds.right() - text_size.width as i32,
            }
        } else {
            match self.state {
                ScrollingState::WaitingStart(_) => bounds.pos.x,
                ScrollingState::Moving(distance) => {
                    let scrolled = distance / DISTANCE_PER_PIXEL;
                    (bounds.pos.x as i64 - scrolled as i64) as i32
                },
                ScrollingState::WaitingEnd(_) => (bounds.right() as i64 - text_size.width as i64)
                    as i32,
            }
        };
        self.text.draw(canvas, bounds.with_x(x), elapsed);
    }
}

impl<'a> Widget<(), u32> for ScrollingTextWidget<'a> {
    open spec fn extent(&self) -> Size<(), u32> {
        Size { width: (), height: self.inner().extent().height }
    }

    /// The height of the text; the width is for the parent to assign.
    fn size(&self) -> (r: Size<(), u32>) {
        Size { width: (), height: self.text.size().height }
    }
}

} // verus!
