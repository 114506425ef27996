use vstd::prelude::*;
use crate::components::layout::{Bounds, Size};
use crate::components::widget::{Drawable, Widget};
use crate::rendering::bitmap::{Bitmap, Pixels};
use crate::time::TimeSpan;

verus! {

/// The value of a full gauge: values are counted in millionths.
pub const FULL_SCALE: u32 = 1_000_000;

/// The time, in nanoseconds, after which a displayed value has reached its
/// target.
pub const SMOOTHING_TIME: u64 = 200_000_000;

/// The interval of the slits in the fill of a bar.
pub const SLIT_INTERVAL: usize = 4;

/// `value` moved into the range from nothing to the full scale.
pub open spec fn clamped_value(value: u32) -> u32 {
    if value > FULL_SCALE {
        FULL_SCALE
    } else {
        value
    }
}

/// Computes [`clamped_value`].
pub fn clamp_value(value: u32) -> (r: u32)
    ensures
        r == clamped_value(value),
{
    if value > FULL_SCALE {
        FULL_SCALE
    } else {
        value
    }
}

/// The part of the smoothing time that has passed with `elapsed`, in
/// nanoseconds; no more than all of it.
pub open spec fn progress(elapsed: TimeSpan) -> int {
    if elapsed.nanos >= SMOOTHING_TIME {
        SMOOTHING_TIME as int
    } else {
        elapsed.nanos as int
    }
}

/// The value displayed when `elapsed` has passed: between the value
/// displayed before and the target, as far toward the target as the
/// smoothing time has passed.
pub open spec fn smoothed(current: u32, target: u32, elapsed: TimeSpan) -> int {
    (current * (SMOOTHING_TIME - progress(elapsed)) + target * progress(elapsed)) / (
    SMOOTHING_TIME as int)
}

/// The smoothed value lies between the value displayed before and the
/// target. Once the whole smoothing time has passed it is the target, and
/// after half of it the mean of the two, rounded down.
pub proof fn lemma_smoothed(current: u32, target: u32, elapsed: TimeSpan)
    ensures
        current <= target ==> current <= smoothed(current, target, elapsed) <= target,
        target <= current ==> target <= smoothed(current, target, elapsed) <= current,
        elapsed.nanos >= SMOOTHING_TIME ==> smoothed(current, target, elapsed) == target,
        elapsed.nanos == 0 ==> smoothed(current, target, elapsed) == current,
        elapsed.nanos == SMOOTHING_TIME / 2 ==> smoothed(current, target, elapsed) == (current
            + target) / 2,
{
    let p = progress(elapsed);
    let s = SMOOTHING_TIME as int;
    let c = current as int;
    let t = target as int;
    let mix = c * (s - p) + t * p;
    assert(0 <= p <= s);
    if c <= t {
        assert(c * s <= mix <= t * s) by (nonlinear_arith)
            requires
                mix == c * (s - p) + t * p,
                0 <= p <= s,
                0 <= c <= t,
        ;
    }
    if t <= c {
        assert(t * s <= mix <= c * s) by (nonlinear_arith)
            requires
                mix == c * (s - p) + t * p,
                0 <= p <= s,
                0 <= t <= c,
        ;
    }
    assert(s == 200_000_000);
    if p == s {
        assert(mix == t * s) by (nonlinear_arith)
            requires
                mix == c * (s - p) + t * p,
                p == s,
        ;
    }
    if p == 0 {
        assert(mix == c * s) by (nonlinear_arith)
            requires
                mix == c * (s - p) + t * p,
                p == 0,
        ;
    }
    if elapsed.nanos == SMOOTHING_TIME / 2 {
        assert(mix == (c + t) * 100_000_000) by (nonlinear_arith)
            requires
                mix == c * (s - p) + t * p,
                p == 100_000_000,
                s == 200_000_000,
        ;
    }
}

/// Computes [`smoothed`].
fn update_smooth_value(current: u32, target: u32, elapsed: &TimeSpan) -> (r: u32)
    requires
        current <= FULL_SCALE,
        target <= FULL_SCALE,
    ensures
        r == smoothed(current, target, *elapsed),
        r <= FULL_SCALE,
{
    let passed: u64 = if elapsed.nanos >= SMOOTHING_TIME {
        SMOOTHING_TIME
    } else {
        elapsed.nanos
    };
    proof {
        lemma_smoothed(current, target, *elapsed);
        assert(current * (SMOOTHING_TIME - passed) <= 1_000_000 * 200_000_000)
            by (nonlinear_arith)
            requires
                current <= 1_000_000,
                0 <= SMOOTHING_TIME - passed <= 200_000_000,
        ;
        assert(target * passed <= 1_000_000 * 200_000_000) by (nonlinear_arith)
            requires
                target <= 1_000_000,
                0 <= passed <= 200_000_000,
        ;
    }
    let mix: u64 = (current as u64) * (SMOOTHING_TIME - passed) + (target as u64) * passed;
    (mix / SMOOTHING_TIME) as u32
}

/// The width in pixels of the fill of a bar `width` pixels wide that
/// displays `value`: that part of the width within the frame.
pub open spec fn fill_width(width: u32, value: u32) -> int {
    ((width - 2) * value) / (FULL_SCALE as int)
}

/// Computes [`fill_width`].
fn fill_of(width: u32, value: u32) -> (r: usize)
    requires
        width >= 2,
        value <= FULL_SCALE,
    ensures
        r == fill_width(width, value),
        r <= width - 2,
{
    proof {
        assert((width - 2) * value <= (width - 2) * 1_000_000) by (nonlinear_arith)
            requires
                0 <= width - 2,
                0 <= value <= 1_000_000,
        ;
    }
    let room: u64 = (width - 2) as u64;
    let scaled: u64 = room * (value as u64);
    assert(scaled == (width - 2) * value);
    assert(scaled <= room * 1_000_000);
    let fill: u64 = scaled / (FULL_SCALE as u64);
    assert(fill == scaled / 1_000_000);
    assert(fill <= room) by (nonlinear_arith)
        requires
            fill == scaled / 1_000_000,
            scaled <= room * 1_000_000,
    ;
    fill as usize
}

/// Whether the frame of a bar can be drawn into `bounds`: they are large
/// enough to hold a frame, and the edges of the frame are within the range
/// of a coordinate.
pub open spec fn holds_bar(bounds: Bounds) -> bool {
    &&& bounds.size.height >= 4
    &&& bounds.size.width >= 2
    &&& bounds.pos.x + bounds.size.width <= i32::MAX
    &&& bounds.pos.y + bounds.size.height <= i32::MAX
    &&& i32::MIN <= bounds.pos.x + bounds.size.width - 5
    &&& i32::MIN <= bounds.pos.y
}

/// Computes [`holds_bar`].
pub fn can_hold_bar(bounds: Bounds) -> (r: bool)
    ensures
        r == holds_bar(bounds),
{
    bounds.size.height >= 4 && bounds.size.width >= 2 && bounds.pos.x as i64
        + bounds.size.width as i64 <= i32::MAX as i64 && bounds.pos.y as i64
        + bounds.size.height as i64 <= i32::MAX as i64 && i32::MIN as i64 <= bounds.pos.x as i64
        + bounds.size.width as i64 - 5
}

/// `canvas` with the frame of a bar drawn into `bounds`: at the left and at
/// the right end a line over the whole height with a serif of four pixels
/// at the top and at the bottom.
pub open spec fn with_bar_limits(canvas: Pixels, bounds: Bounds) -> Pixels {
    let x = bounds.pos.x as int;
    let y = bounds.pos.y as int;
    let right = bounds.pos.x + bounds.size.width;
    let bottom = bounds.pos.y + bounds.size.height;
    canvas.with_rect(x, y, 4, 1).with_rect(x, bottom - 1, 4, 1).with_rect(
        x,
        y,
        1,
        bounds.size.height as int,
    ).with_rect(right - 5, y, 4, 1).with_rect(right - 5, bottom - 1, 4, 1).with_rect(
        right - 1,
        y,
        1,
        bounds.size.height as int,
    )
}

/// Draws the frame of a bar into `bounds`.
pub fn draw_bar_limits(canvas: &mut Bitmap, bounds: Bounds)
    requires
        old(canvas).wf(),
        holds_bar(bounds),
    ensures
        final(canvas).wf(),
        final(canvas)@ == with_bar_limits(old(canvas)@, bounds),
{
    canvas.draw_rect(bounds.pos.x, bounds.pos.y, 4, 1);
    canvas.draw_rect(bounds.pos.x, bounds.bottom() - 1, 4, 1);
    canvas.draw_rect(bounds.pos.x, bounds.pos.y, 1, bounds.size.height as usize);
    canvas.draw_rect(bounds.right() - 5, bounds.pos.y, 4, 1);
    canvas.draw_rect(bounds.right() - 5, bounds.bottom() - 1, 4, 1);
    canvas.draw_rect(bounds.right() - 1, bounds.pos.y, 1, bounds.size.height as usize);
}

/// A horizontal bar displaying a value between nothing and the full scale.
/// The value displayed approaches its target with time.
pub struct BarWidget {
    value: u32,
    target: u32,
}

impl BarWidget {
    /// The value displayed, in millionths.
    pub closed spec fn displayed(&self) -> u32 {
        self.value
    }

    /// The value that the displayed value approaches, in millionths.
    pub closed spec fn aim(&self) -> u32 {
        self.target
    }

    /// The canvas after a bar that displays `value` was drawn onto it into
    /// `bounds`: the frame, and within it a fill with slits, as wide as
    /// `value` is of the full scale.
    pub open spec fn painted_with(canvas: Pixels, bounds: Bounds, value: u32) -> Pixels {
        with_bar_limits(canvas, bounds).with_slit_rect(
            bounds.pos.x + 1,
            bounds.pos.y + 2,
            fill_width(bounds.size.width, value),
            bounds.size.height - 4,
            SLIT_INTERVAL as int,
        )
    }

    /// The value displayed after the target was set to `value` and `elapsed`
    /// has passed.
    pub open spec fn displayed_after(&self, value: u32, elapsed: TimeSpan) -> u32 {
        smoothed(self.displayed(), clamped_value(value), elapsed) as u32
    }

    /// Whether `next` is the bar after its target was set to `value` and it
    /// was drawn when `elapsed` had passed.
    pub open spec fn fed(&self, next: &Self, value: u32, elapsed: TimeSpan) -> bool {
        &&& next.aim() == clamped_value(value)
        &&& next.displayed() == self.displayed_after(value, elapsed)
    }

    /// An empty bar.
    pub fn new() -> (r: Self)
        ensures
            r.wf(),
            r.displayed() == 0,
            r.aim() == 0,
    {
        BarWidget { value: 0, target: 0 }
    }

    /// The value displayed, in millionths.
    pub fn value(&self) -> (r: u32)
        ensures
            r == self.displayed(),
    {
        self.value
    }

    /// Sets the value to be displayed, at once.
    pub fn set_value(&mut self, value: u32)
        ensures
            final(self).wf(),
            final(self).displayed() == clamped_value(value),
            final(self).aim() == clamped_value(value),
    {
        let value = clamp_value(value);
        self.value = value;
        self.target = value;
    }

    /// Sets the target value to be displayed. The actual value will approach
    /// this over time.
    pub fn set_value_smoothed(&mut self, value: u32)
        requires
            old(self).wf(),
        ensures
            final(self).wf(),
            final(self).displayed() == old(self).displayed(),
            final(self).aim() == clamped_value(value),
    {
        self.target = clamp_value(value);
    }
}

impl Drawable for BarWidget {
    open spec fn wf(&self) -> bool {
        self.displayed() <= FULL_SCALE && self.aim() <= FULL_SCALE
    }

    open spec fn fits(&self, canvas: Pixels, bounds: Bounds) -> bool {
        holds_bar(bounds)
    }

    open spec fn draws(
        &self,
        next: &Self,
        canvas: Pixels,
        result: Pixels,
        bounds: Bounds,
        elapsed: TimeSpan,
    ) -> bool {
        &&& next.aim() == self.aim()
        &&& next.displayed() == smoothed(self.displayed(), self.aim(), elapsed)
        &&& result == Self::painted_with(canvas, bounds, next.displayed())
    }

    fn can_draw(&self, canvas: &Bitmap, bounds: Bounds) -> (r: bool) {
        can_hold_bar(bounds)
    }

    /// Moves the displayed value toward its target and draws the bar.
    fn draw(&mut self, canvas: &mut Bitmap, bounds: Bounds, elapsed: &TimeSpan) {
        self.value = update_smooth_value(self.value, self.target, elapsed);
        draw_bar_limits(canvas, bounds);
        canvas.draw_rect_with_slits(
            bounds.pos.x + 1,
            bounds.pos.y + 2,
            fill_of(bounds.size.width, self.value),
            bounds.size.height as usize - 4,
            SLIT_INTERVAL,
        );
    }
}

impl Widget<(), ()> for BarWidget {
    open spec fn extent(&self) -> Size<(), ()> {
        Size { width: (), height: () }
    }

    /// Both dimensions are for the parent to assign.
    fn size(&self) -> (r: Size<(), ()>) {
        Size { width: (), height: () }
    }
}

/// Two horizontal bars in one frame, one above the other, each displaying a
/// value of its own.
pub struct DoubleBarWidget {
    value_1: u32,
    target_1: u32,
    value_2: u32,
    target_2: u32,
}

impl DoubleBarWidget {
    /// The values displayed, in millionths: that of the upper bar and that
    /// of the lower bar.
    pub closed spec fn displayed(&self) -> (u32, u32) {
        (self.value_1, self.value_2)
    }

    /// The values that the displayed values approach, in millionths.
    pub closed spec fn aim(&self) -> (u32, u32) {
        (self.target_1, self.target_2)
    }

    /// The canvas after a double bar that displays `upper` and `lower` was
    /// drawn onto it into `bounds`: the frame, in the upper half within it a
    /// fill with slits and in the lower half a solid fill.
    pub open spec fn painted_with(canvas: Pixels, bounds: Bounds, upper: u32, lower: u32) -> Pixels {
        with_bar_limits(canvas, bounds).with_slit_rect(
            bounds.pos.x + 1,
            bounds.pos.y + 2,
            fill_width(bounds.size.width, upper),
            (bounds.size.height - 4) / 2,
            SLIT_INTERVAL as int,
        ).with_rect(
            bounds.pos.x + 1,
            bounds.pos.y + 2 + (bounds.size.height - 4) / 2,
            fill_width(bounds.size.width, lower),
            (bounds.size.height - 4) / 2,
        )
    }

    /// The values displayed after the targets were set to `upper` and
    /// `lower` and `elapsed` has passed.
    pub open spec fn displayed_after(&self, upper: u32, lower: u32, elapsed: TimeSpan) -> (
        u32,
        u32,
    ) {
        (
            smoothed(self.displayed().0, clamped_value(upper), elapsed) as u32,
            smoothed(self.displayed().1, clamped_value(lower), elapsed) as u32,
        )
    }

    /// Whether `next` is the double bar after its targets were set to
    /// `upper` and `lower` and it was drawn when `elapsed` had passed.
    pub open spec fn fed(&self, next: &Self, upper: u32, lower: u32, elapsed: TimeSpan) -> bool {
        &&& next.aim() == (clamped_value(upper), clamped_value(lower))
        &&& next.displayed() == self.displayed_after(upper, lower, elapsed)
    }

    /// An empty double bar.
    pub fn new() -> (r: Self)
        ensures
            r.wf(),
            r.displayed() == (0u32, 0u32),
            r.aim() == (0u32, 0u32),
    {
        DoubleBarWidget { value_1: 0, target_1: 0, value_2: 0, target_2: 0 }
    }

    /// The values displayed, in millionths.
    pub fn values(&self) -> (r: (u32, u32))
        ensures
            r == self.displayed(),
    {
        (self.value_1, self.value_2)
    }

    /// Sets the values to be displayed, at once.
    pub fn set_values(&mut self, value_1: u32, value_2: u32)
        ensures
            final(self).wf(),
            final(self).displayed() == (clamped_value(value_1), clamped_value(value_2)),
            final(self).aim() == (clamped_value(value_1), clamped_value(value_2)),
    {
        let value_1 = clamp_value(value_1);
        let value_2 = clamp_value(value_2);
        self.value_1 = value_1;
        self.value_2 = value_2;
        self.target_1 = value_1;
        self.target_2 = value_2;
    }

    /// Sets the target values to be displayed. The actual values will
    /// approach these over time.
    pub fn set_values_smoothed(&mut self, value_1: u32, value_2: u32)
        requires
            old(self).wf(),
        ensures
            final(self).wf(),
            final(self).displayed() == old(self).displayed(),
            final(self).aim() == (clamped_value(value_1), clamped_value(value_2)),
    {
        self.target_1 = clamp_value(value_1);
        self.target_2 = clamp_value(value_2);
    }
}

impl Drawable for DoubleBarWidget {
    open spec fn wf(&self) -> bool {
        &&& self.displayed().0 <= FULL_SCALE
        &&& self.displayed().1 <= FULL_SCALE
        &&& self.aim().0 <= FULL_SCALE
        &&& self.aim().1 <= FULL_SCALE
    }

    open spec fn fits(&self, canvas: Pixels, bounds: Bounds) -> bool {
        holds_bar(bounds)
    }

    open spec fn draws(
        &self,
        next: &Self,
        canvas: Pixels,
        result: Pixels,
        bounds: Bounds,
        elapsed: TimeSpan,
    ) -> bool {
        &&& next.aim() == self.aim()
        &&& next.displayed() == (
            smoothed(self.displayed().0, self.aim().0, elapsed) as u32,
            smoothed(self.displayed().1, self.aim().1, elapsed) as u32,
        )
        &&& result == Self::painted_with(
            canvas,
            bounds,
            next.displayed().0,
            next.displayed().1,
        )
    }

    fn can_draw(&self, canvas: &Bitmap, bounds: Bounds) -> (r: bool) {
        can_hold_bar(bounds)
    }

    /// Moves the displayed values toward their targets and draws the bars.
    fn draw(&mut self, canvas: &mut Bitmap, bounds: Bounds, elapsed: &TimeSpan) {
        self.value_1 = update_smooth_value(self.value_1, self.target_1, elapsed);
        self.value_2 = update_smooth_value(self.value_2, self.target_2, elapsed);
        draw_bar_limits(canvas, bounds);
        let half: usize = (bounds.size.height as usize - 4) / 2;
        canvas.draw_rect_with_slits(
            bounds.pos.x + 1,
            bounds.pos.y + 2,
            fill_of(bounds.size.width, self.value_1),
            half,
            SLIT_INTERVAL,
        );
        canvas.draw_rect(
            bounds.pos.x + 1,
            bounds.pos.y + 2 + half as i32,
            fill_of(bounds.size.width, self.value_2),
            half,
        );
    }
}

impl Widget<(), ()> for DoubleBarWidget {
    open spec fn extent(&self) -> Size<(), ()> {
        Size { width: (), height: () }
    }

    /// Both dimensions are for the parent to assign.
    fn size(&self) -> (r: Size<(), ()>) {
        Size { width: (), height: () }
    }
}

} // verus!
