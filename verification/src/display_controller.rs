use vstd::prelude::*;
use crate::components::layout::{cover, Bounds, MAX_EXTENT};
use crate::components::widget::Drawable;
use crate::output::RenderTarget;
use crate::rendering::binary_bitmap::{packed_byte, BinaryBitmap};
use crate::rendering::bitmap::{Bitmap, Pixels};
use crate::screens::collection::{index_after, index_before, lemma_cycle, Screen};
use crate::screens::indicator::ScreenIndicator;
use crate::time::TimeSpan;

verus! {

/// Holds the screens, the screensaver and the canvas of a display. Either
/// the active screen is shown or, while it is active, the screensaver.
pub struct DisplayController<S: Screen, V: Screen> {
    screens: Vec<S>,
    active_screen: usize,
    canvas: Bitmap,
    indicator: ScreenIndicator,
    screensaver: V,
    screensaver_active: bool,
}

impl<S: Screen, V: Screen> DisplayController<S, V> {
    /// The screens.
    pub closed spec fn screens(&self) -> Seq<S> {
        self.screens@
    }

    /// The index of the active screen.
    pub closed spec fn active(&self) -> int {
        self.active_screen as int
    }

    /// The canvas.
    pub closed spec fn canvas(&self) -> Pixels {
        self.canvas@
    }

    /// The transition indicator.
    pub closed spec fn indicator(&self) -> ScreenIndicator {
        self.indicator
    }

    /// The screensaver.
    pub closed spec fn screensaver(&self) -> V {
        self.screensaver
    }

    /// Whether the screensaver is shown.
    pub closed spec fn saving(&self) -> bool {
        self.screensaver_active
    }

    /// There is an active screen, the canvas can be packed, and every part
    /// is well-formed.
    pub open spec fn wf(&self) -> bool {
        &&& 0 <= self.active() < self.screens().len()
        &&& self.indicator().wf()
        &&& self.indicator().screens() == self.screens().len()
        &&& self.screensaver().wf()
        &&& self.canvas().data.len() == self.canvas().width * self.canvas().height
        &&& self.canvas().data.len() % 8 == 0
        &&& forall|i: int| 0 <= i < self.screens().len() ==> (#[trigger] self.screens()[i]).wf()
    }

    /// Whether `other` differs from this controller at most in its active
    /// screen and in its indicator.
    pub open spec fn same_but_screens(&self, other: &Self) -> bool {
        &&& other.canvas() == self.canvas()
        &&& other.screensaver() == self.screensaver()
        &&& other.saving() == self.saving()
        &&& other.screens().len() == self.screens().len()
    }

    /// Whether `next` is a state that switching to the screen at index `to`,
    /// to the left or to the right, can leave: that screen is active and was
    /// mounted, the others are as they were, and the transition indicator is
    /// armed for a switch away from the screen that was active.
    pub open spec fn switched(&self, next: &Self, to: int, to_left: bool) -> bool {
        &&& self.same_but_screens(next)
        &&& next.active() == to
        &&& self.screens()[to].mounts(&next.screens()[to])
        &&& forall|i: int|
            0 <= i < self.screens().len() && i != to ==> next.screens()[i] == self.screens()[i]
        &&& self.indicator().armed(&next.indicator(), self.active() as usize, to_left)
    }

    /// Whether a frame can be drawn: the canvas is no larger than what the
    /// widgets can be laid out in, and what is shown fits into it.
    pub open spec fn drawable(&self) -> bool {
        &&& self.canvas().width <= MAX_EXTENT
        &&& self.canvas().height <= MAX_EXTENT
        &&& if self.saving() {
            self.screensaver().fits(self.canvas().cleared(), cover(self.canvas()))
        } else {
            self.screens()[self.active()].fits(self.canvas().cleared(), cover(self.canvas()))
        }
    }

    /// Whether drawing a frame `elapsed` after the one before can leave the
    /// state `next`. The canvas is cleared. While the screensaver is shown
    /// it alone is drawn; else the active screen is drawn and, while it is
    /// showing, the transition indicator on top. The indicator ages while
    /// it is showing, whatever is drawn.
    pub open spec fn renders(&self, next: &Self, elapsed: TimeSpan) -> bool {
        &&& next.active() == self.active()
        &&& next.saving() == self.saving()
        &&& next.screens().len() == self.screens().len()
        &&& if self.indicator().showing() {
            self.indicator().aged(&next.indicator(), elapsed)
        } else {
            next.indicator() == self.indicator()
        }
        &&& if self.saving() {
            &&& next.screens() == self.screens()
            &&& self.screensaver().draws(
                &next.screensaver(),
                self.canvas().cleared(),
                next.canvas(),
                cover(self.canvas()),
                elapsed,
            )
        } else {
            &&& next.screensaver() == self.screensaver()
            &&& forall|i: int|
                0 <= i < self.screens().len() && i != self.active() ==> next.screens()[i]
                    == self.screens()[i]
            &&& exists|screen: Pixels|
                {
                    &&& #[trigger] self.screens()[self.active()].draws(
                        &next.screens()[self.active()],
                        self.canvas().cleared(),
                        screen,
                        cover(self.canvas()),
                        elapsed,
                    )
                    &&& next.canvas() == if next.indicator().showing() {
                        next.indicator().painted(screen, cover(self.canvas()))
                    } else {
                        screen
                    }
                }
        }
    }

    /// A controller with a black canvas of the given size, whose number of
    /// pixels must be a multiple of eight, for the given screens, of which
    /// there must be one at least. The first screen is active and is
    /// mounted; the screensaver is not shown.
    pub fn new(width: usize, height: usize, screens: Vec<S>, screensaver: V) -> (r: Self)
        requires
            width * height <= usize::MAX,
            (width * height) % 8 == 0,
            screens@.len() > 0,
            forall|i: int| 0 <= i < screens@.len() ==> (#[trigger] screens@[i]).wf(),
            screensaver.wf(),
        ensures
            r.wf(),
            r.active() == 0,
            !r.saving(),
            r.screensaver() == screensaver,
            r.canvas().width == width,
            r.canvas().height == height,
            r.screens().len() == screens@.len(),
            screens@[0].mounts(&r.screens()[0]),
            forall|i: int| 0 < i < screens@.len() ==> r.screens()[i] == screens@[i],
            !r.indicator().showing(),
    {
        let canvas = Bitmap::new(width, height);
        let mut screens = screens;
        let num_screens = screens.len();
        screens[0].on_mount();
        DisplayController {
            screens,
            active_screen: 0,
            canvas,
            indicator: ScreenIndicator::new(num_screens),
            screensaver,
            screensaver_active: false,
        }
    }

    /// Switches to the next screen, and from the last one to the first,
    /// unless the screensaver is shown.
    pub fn next_screen(&mut self)
        requires
            old(self).wf(),
        ensures
            final(self).wf(),
            old(self).saving() ==> *final(self) == *old(self),
            !old(self).saving() ==> old(self).switched(
                final(self),
                index_after(old(self).active(), old(self).screens().len() as int),
                false,
            ),
    {
        if self.screensaver_active {
            return ;
        }
        let prev = self.active_screen;
        assert(self.screens.len() <= usize::MAX);
        self.active_screen = (self.active_screen + 1) % self.screens.len();
        self.screens[self.active_screen].on_mount();
        self.indicator.show(prev, false);
    }

    /// Switches to the previous screen, and from the first one to the last,
    /// unless the screensaver is shown.
    pub fn previous_screen(&mut self)
        requires
            old(self).wf(),
        ensures
            final(self).wf(),
            old(self).saving() ==> *final(self) == *old(self),
            !old(self).saving() ==> old(self).switched(
                final(self),
                index_before(old(self).active(), old(self).screens().len() as int),
                true,
            ),
    {
        if self.screensaver_active {
            return ;
        }
        let prev = self.active_screen;
        let count = self.screens.len();
        proof {
            lemma_cycle(prev as int, count as int);
        }
        self.active_screen = if prev == 0 {
            count - 1
        } else {
            prev - 1
        };
        self.screens[self.active_screen].on_mount();
        self.indicator.show(prev, true);
    }

    /// Shows or hides the screensaver. What comes to be shown, the
    /// screensaver or the active screen, is mounted; nothing happens if the
    /// screensaver is shown or hidden already.
    pub fn set_screensaver_active(&mut self, active: bool)
        requires
            old(self).wf(),
        ensures
            final(self).wf(),
            final(self).saving() == active,
            final(self).active() == old(self).active(),
            final(self).canvas() == old(self).canvas(),
            final(self).indicator() == old(self).indicator(),
            final(self).screens().len() == old(self).screens().len(),
            old(self).saving() == active ==> *final(self) == *old(self),
            old(self).saving() != active && active ==> {
                &&& old(self).screensaver().mounts(&final(self).screensaver())
                &&& final(self).screens() == old(self).screens()
            },
            old(self).saving() != active && !active ==> {
                &&& final(self).screensaver() == old(self).screensaver()
                &&& old(self).screens()[old(self).active()].mounts(
                    &final(self).screens()[old(self).active()],
                )
                &&& forall|i: int|
                    0 <= i < old(self).screens().len() && i != old(self).active()
                        ==> final(self).screens()[i] == old(self).screens()[i]
            },
    {
        if self.screensaver_active == active {
            return ;
        }
        self.screensaver_active = active;
        if active {
            self.screensaver.on_mount();
        } else {
            self.screens[self.active_screen].on_mount();
        }
    }

    /// Lets `elapsed` pass for the transition indicator.
    pub fn update(&mut self, elapsed: &TimeSpan)
        requires
            old(self).wf(),
        ensures
            final(self).wf(),
            final(self).active() == old(self).active(),
            final(self).saving() == old(self).saving(),
            final(self).canvas() == old(self).canvas(),
            final(self).screens() == old(self).screens(),
            final(self).screensaver() == old(self).screensaver(),
            if old(self).indicator().showing() {
                old(self).indicator().aged(&final(self).indicator(), *elapsed)
            } else {
                final(self).indicator() == old(self).indicator()
            },
    {
        self.indicator.tick(elapsed);
    }

    /// Draws a frame onto the canvas and returns it packed.
    pub fn render(&mut self, elapsed: &TimeSpan) -> (r: BinaryBitmap)
        requires
            old(self).wf(),
            old(self).drawable(),
        ensures
            final(self).wf(),
            old(self).renders(final(self), *elapsed),
            r.width == final(self).canvas().width,
            r.height == final(self).canvas().height,
            r.buffer@.len() == (final(self).canvas().width * final(self).canvas().height) / 8,
            forall|i: int|
                0 <= i < r.buffer@.len() ==> r.buffer@[i] == #[trigger] packed_byte(
                    final(self).canvas().data,
                    i,
                ),
    {
        self.update(elapsed);

        self.canvas.clear();
        let bounds = Bounds::cover_bitmap(&self.canvas);
        if self.screensaver_active {
            self.screensaver.draw(&mut self.canvas, bounds, elapsed);
        } else {
            self.screens[self.active_screen].draw(&mut self.canvas, bounds, elapsed);
            if self.indicator.should_draw() {
                self.indicator.draw_to(&mut self.canvas, bounds);
            }
        }
        BinaryBitmap::from(&self.canvas)
    }

    /// Draws a frame and hands it, packed, to `target`, whose answer is
    /// returned.
    pub fn draw_to<T: RenderTarget>(&mut self, target: &mut T, elapsed: &TimeSpan) -> (r: Result<
        (),
        std::io::Error,
    >)
        requires
            old(self).wf(),
            old(self).drawable(),
        ensures
            final(self).wf(),
            old(self).renders(final(self), *elapsed),
    {
        let frame = self.render(elapsed);
        target.render_bitmap(frame)
    }

    /// Whether a frame can be drawn.
    pub fn can_draw(&self) -> (r: bool)
        requires
            self.wf(),
        ensures
            r == self.drawable(),
    {
        if self.canvas.width > MAX_EXTENT as usize || self.canvas.height > MAX_EXTENT as usize {
            return false;
        }
        let bounds = Bounds::cover_bitmap(&self.canvas);
        assert(self.canvas.buffer.len() <= usize::MAX);
        let cleared = Bitmap::new(self.canvas.width, self.canvas.height);
        assert(cleared@ == self.canvas@.cleared());
        if self.screensaver_active {
            self.screensaver.can_draw(&cleared, bounds)
        } else {
            self.screens[self.active_screen].can_draw(&cleared, bounds)
        }
    }

    /// The index of the active screen.
    pub fn active_index(&self) -> (r: usize)
        ensures
            r == self.active(),
    {
        self.active_screen
    }

    /// Whether the screensaver is shown.
    pub fn screensaver_active(&self) -> (r: bool)
        ensures
            r == self.saving(),
    {
        self.screensaver_active
    }

    /// The canvas as the last frame left it.
    pub fn frame(&self) -> (r: &Bitmap)
        ensures
            r@ == self.canvas(),
    {
        &self.canvas
    }

    /// The transition indicator.
    pub fn transition(&self) -> (r: ScreenIndicator)
        ensures
            r == self.indicator(),
    {
        self.indicator
    }
}

} // verus!
