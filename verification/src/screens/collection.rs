use vstd::prelude::*;
use super::indicator::ScreenIndicator;
use crate::components::layout::Bounds;
use crate::components::widget::Drawable;
use crate::rendering::bitmap::{Bitmap, Pixels};
use vstd::arithmetic::div_mod::lemma_fundamental_div_mod_converse;
use crate::time::TimeSpan;

verus! {

/// A drawable that fills the canvas and can be switched to.
pub trait Screen: Drawable {
    /// Whether `next` is a state that mounting can leave.
    spec fn mounts(&self, next: &Self) -> bool;

    /// Called when this screen is switched to, and will be drawn soon.
    fn on_mount(&mut self)
        requires
            old(self).wf(),
        ensures
            final(self).wf(),
            old(self).mounts(final(self)),
    ;
}

/// The index that follows `index` among `count` screens: the next one, and
/// after the last one the first.
pub open spec fn index_after(index: int, count: int) -> int {
    (index + 1) % count
}

/// The index that precedes `index` among `count` screens: the one before,
/// and before the first one the last.
pub open spec fn index_before(index: int, count: int) -> int {
    (index + count - 1) % count
}

/// The index that follows is the next one, but after the last one it is the
/// first; the index that precedes is the one before, but before the first
/// one it is the last.
pub proof fn lemma_cycle(index: int, count: int)
    requires
        0 <= index < count,
    ensures
        index_after(index, count) == if index == count - 1 {
            0
        } else {
            index + 1
        },
        index_before(index, count) == if index == 0 {
            count - 1
        } else {
            index - 1
        },
{
    if index == count - 1 {
        lemma_fundamental_div_mod_converse(index + 1, count, 1, 0);
    } else {
        lemma_fundamental_div_mod_converse(index + 1, count, 0, index + 1);
    }
    if index == 0 {
        lemma_fundamental_div_mod_converse(index + count - 1, count, 0, count - 1);
    } else {
        lemma_fundamental_div_mod_converse(index + count - 1, count, 1, index - 1);
    }
}

/// Holds several screens and allows cycling between them. Exactly one of
/// them is active at a time.
pub struct ScreenCollection<S: Screen> {
    screens: Vec<S>,
    active_screen: usize,
    indicator: ScreenIndicator,
}

impl<S: Screen> ScreenCollection<S> {
    /// The screens.
    pub closed spec fn screens(&self) -> Seq<S> {
        self.screens@
    }

    /// The index of the active screen.
    pub closed spec fn active(&self) -> int {
        self.active_screen as int
    }

    /// The transition indicator.
    pub closed spec fn indicator(&self) -> ScreenIndicator {
        self.indicator
    }

    /// Whether `next` is a state that switching to the screen at index `to`,
    /// to the left or to the right, can leave: that screen is active and was
    /// mounted, the others are as they were, and the transition indicator is
    /// armed for a switch away from the screen that was active, in the same
    /// direction.
    pub open spec fn switched(&self, next: &Self, to: int, to_left: bool) -> bool {
        &&& next.active() == to
        &&& next.screens().len() == self.screens().len()
        &&& self.screens()[to].mounts(&next.screens()[to])
        &&& forall|i: int|
            0 <= i < self.screens().len() && i != to ==> next.screens()[i] == self.screens()[i]
        &&& self.indicator().armed(&next.indicator(), self.active() as usize, to_left)
    }

    /// A collection of the given screens, of which there must be one at
    /// least. The first one is active and is mounted.
    pub fn new(screens: Vec<S>) -> (r: Self)
        requires
            screens@.len() > 0,
            forall|i: int| 0 <= i < screens@.len() ==> (#[trigger] screens@[i]).wf(),
        ensures
            r.wf(),
            r.active() == 0,
            r.screens().len() == screens@.len(),
            screens@[0].mounts(&r.screens()[0]),
            forall|i: int| 0 < i < screens@.len() ==> r.screens()[i] == screens@[i],
            !r.indicator().showing(),
    {
        let mut screens = screens;
        let num_screens = screens.len();
        screens[0].on_mount();
        ScreenCollection { screens, active_screen: 0, indicator: ScreenIndicator::new(num_screens) }
    }

    /// Switches to the next screen, and from the last one to the first.
    pub fn next_screen(&mut self)
        requires
            old(self).wf(),
        ensures
            final(self).wf(),
            old(self).switched(
                final(self),
                index_after(old(self).active(), old(self).screens().len() as int),
                false,
            ),
    {
        let prev = self.active_screen;
        assert(self.screens.len() <= usize::MAX);
        self.active_screen = (self.active_screen + 1) % self.screens.len();
        self.screens[self.active_screen].on_mount();
        self.indicator.show(prev, false);
    }

    /// Switches to the previous screen, and from the first one to the last.
    pub fn previous_screen(&mut self)
        requires
            old(self).wf(),
        ensures
            final(self).wf(),
            old(self).switched(
                final(self),
                index_before(old(self).active(), old(self).screens().len() as int),
                true,
            ),
    {
        let prev = self.active_screen;
        let count = self.screens.len();
        proof {
            lemma_cycle(prev as int, count as int);
        }
        self.active_screen = if prev == 0 {
            count - 1
        } else {
            prev - 1
        };
        self.screens[self.active_screen].on_mount();
        self.indicator.show(prev, true);
    }

    /// Switches to the next screen, as [`ScreenCollection::next_screen`]
    /// does.
    pub fn next(&mut self)
        requires
            old(self).wf(),
        ensures
            final(self).wf(),
            old(self).switched(
                final(self),
                index_after(old(self).active(), old(self).screens().len() as int),
                false,
            ),
    {
        self.next_screen();
    }

    /// Switches to the previous screen, as
    /// [`ScreenCollection::previous_screen`] does.
    pub fn previous(&mut self)
        requires
            old(self).wf(),
        ensures
            final(self).wf(),
            old(self).switched(
                final(self),
                index_before(old(self).active(), old(self).screens().len() as int),
                true,
            ),
    {
        self.previous_screen();
    }

    /// The index of the active screen.
    pub fn active_index(&self) -> (r: usize)
        ensures
            r == self.active(),
    {
        self.active_screen
    }

    /// The number of screens.
    pub fn len(&self) -> (r: usize)
        ensures
            r == self.screens().len(),
    {
        self.screens.len()
    }

    /// The active screen.
    pub fn active_screen(&self) -> (r: &S)
        requires
            self.wf(),
        ensures
            *r == self.screens()[self.active()],
    {
        &self.screens[self.active_screen]
    }

    /// The screen at `index`, so that it can be told what to show. The
    /// collection stays well-formed if the screen does.
    pub fn screen_mut(&mut self, index: usize) -> (r: &mut S)
        requires
            index < old(self).screens().len(),
        ensures
            *r == old(self).screens()[index as int],
            final(self).screens() == old(self).screens().update(index as int, *final(r)),
            final(self).active() == old(self).active(),
            final(self).indicator() == old(self).indicator(),
    {
        &mut self.screens[index]
    }

    /// The transition indicator.
    pub fn transition(&self) -> (r: ScreenIndicator)
        ensures
            r == self.indicator(),
    {
        self.indicator
    }
}

impl<S: Screen> Drawable for ScreenCollection<S> {
    open spec fn wf(&self) -> bool {
        &&& 0 <= self.active() < self.screens().len()
        &&& self.indicator().wf()
        &&& self.indicator().screens() == self.screens().len()
        &&& forall|i: int| 0 <= i < self.screens().len() ==> (#[trigger] self.screens()[i]).wf()
    }

    open spec fn fits(&self, canvas: Pixels, bounds: Bounds) -> bool {
        &&& self.screens()[self.active()].fits(canvas, bounds)
        &&& ScreenIndicator::paintable(canvas, bounds)
    }

    open spec fn draws(
        &self,
        next: &Self,
        canvas: Pixels,
        result: Pixels,
        bounds: Bounds,
        elapsed: TimeSpan,
    ) -> bool {
        &&& next.active() == self.active()
        &&& next.screens().len() == self.screens().len()
        &&& forall|i: int|
            0 <= i < self.screens().len() && i != self.active() ==> next.screens()[i]
                == self.screens()[i]
        &&& exists|screen: Pixels|
            {
                &&& #[trigger] self.screens()[self.active()].draws(
                    &next.screens()[self.active()],
                    canvas,
                    screen,
                    bounds,
                    elapsed,
                )
                &&& if self.indicator().showing() {
                    self.indicator().draws(&next.indicator(), screen, result, bounds, elapsed)
                } else {
                    next.indicator() == self.indicator() && result == screen
                }
            }
    }

    fn can_draw(&self, canvas: &Bitmap, bounds: Bounds) -> (r: bool) {
        self.screens[self.active_screen].can_draw(canvas, bounds) && ScreenIndicator::is_paintable(
            canvas,
            bounds,
        )
    }

    /// Draws the active screen and, while it is showing, the transition
    /// indicator on top.
    fn draw(&mut self, canvas: &mut Bitmap, bounds: Bounds, elapsed: &TimeSpan) {
        self.screens[self.active_screen].draw(canvas, bounds, elapsed);
        if self.indicator.should_draw() {
            self.indicator.draw(canvas, bounds, elapsed);
        }
    }
}

} // verus!
