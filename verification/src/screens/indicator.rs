use vstd::prelude::*;
use crate::components::layout::{Bounds, MAX_EXTENT};
use crate::components::widget::Drawable;
use vstd::set_lib::{lemma_int_range, lemma_len_subset, lemma_len_union, set_int_range};
use crate::rendering::bitmap::{
    clamped,
    lemma_position_in_data,
    lemma_rect_pixel,
    Bitmap,
    Pixels,
};
use crate::time::TimeSpan;

verus! {

/// The time, in milliseconds, for which the marker moves.
pub const MOVE_MILLIS: u64 = 600;

/// The time, in milliseconds, for which the marker then rests.
pub const WAIT_MILLIS: u64 = 200;

/// The time, in milliseconds, in which the marker then collapses.
pub const COLLAPSE_MILLIS: u64 = 400;

/// The time, in nanoseconds, for which the indicator is drawn.
pub const SHOWN_NANOS: u64 = 1_200_000_000;

/// The value of a completed movement: the ease is counted in millionths.
pub const EASE_SCALE: u32 = 1_000_000;

/// The sinusoidal ease-out of the movement: entry `k` is the sine of the
/// fraction `k / 600` of a quarter turn, in millionths, rounded.
pub const EASE_OUT: [u32; 601] = [
    0, 2618, 5236, 7854, 10472, 13090, 15707, 18325, 20942, 23560,
    26177, 28794, 31411, 34027, 36644, 39260, 41876, 44491, 47106, 49721,
    52336, 54950, 57564, 60177, 62791, 65403, 68015, 70627, 73238, 75849,
    78459, 81069, 83678, 86286, 88894, 91502, 94108, 96714, 99320, 101924,
    104528, 107132, 109734, 112336, 114937, 117537, 120137, 122735, 125333, 127930,
    130526, 133121, 135716, 138309, 140901, 143493, 146083, 148672, 151261, 153848,
    156434, 159020, 161604, 164187, 166769, 169350, 171929, 174508, 177085, 179661,
    182236, 184809, 187381, 189952, 192522, 195090, 197657, 200223, 202787, 205350,
    207912, 210472, 213030, 215588, 218143, 220697, 223250, 225801, 228351, 230899,
    233445, 235990, 238533, 241075, 243615, 246153, 248690, 251225, 253758, 256289,
    258819, 261347, 263873, 266397, 268920, 271440, 273959, 276476, 278991, 281504,
    284015, 286525, 289032, 291537, 294040, 296542, 299041, 301538, 304033, 306526,
    309017, 311506, 313992, 316477, 318959, 321439, 323917, 326393, 328867, 331338,
    333807, 336274, 338738, 341200, 343660, 346117, 348572, 351025, 353475, 355923,
    358368, 360811, 363251, 365689, 368125, 370557, 372988, 375416, 377841, 380263,
    382683, 385101, 387516, 389928, 392337, 394744, 397148, 399549, 401948, 404344,
    406737, 409127, 411514, 413899, 416281, 418660, 421036, 423409, 425779, 428147,
    430511, 432873, 435231, 437587, 439939, 442289, 444635, 446979, 449319, 451656,
    453990, 456322, 458650, 460974, 463296, 465615, 467930, 470242, 472551, 474856,
    477159, 479458, 481754, 484046, 486335, 488621, 490904, 493183, 495459, 497731,
    500000, 502266, 504528, 506786, 509041, 511293, 513541, 515786, 518027, 520265,
    522499, 524729, 526956, 529179, 531399, 533615, 535827, 538035, 540240, 542442,
    544639, 546833, 549023, 551209, 553392, 555570, 557745, 559916, 562083, 564247,
    566406, 568562, 570714, 572861, 575005, 577145, 579281, 581413, 583541, 585665,
    587785, 589901, 592013, 594121, 596225, 598325, 600420, 602512, 604599, 606682,
    608761, 610836, 612907, 614974, 617036, 619094, 621148, 623197, 625243, 627284,
    629320, 631353, 633381, 635405, 637424, 639439, 641450, 643456, 645458, 647455,
    649448, 651437, 653421, 655400, 657375, 659346, 661312, 663273, 665230, 667183,
    669131, 671074, 673013, 674947, 676876, 678801, 680721, 682636, 684547, 686453,
    688355, 690251, 692143, 694030, 695913, 697790, 699663, 701531, 703395, 705253,
    707107, 708956, 710799, 712639, 714473, 716302, 718126, 719946, 721760, 723570,
    725374, 727174, 728969, 730758, 732543, 734323, 736097, 737867, 739631, 741391,
    743145, 744894, 746638, 748377, 750111, 751840, 753563, 755282, 756995, 758703,
    760406, 762104, 763796, 765483, 767165, 768842, 770513, 772179, 773840, 775496,
    777146, 778791, 780430, 782065, 783693, 785317, 786935, 788548, 790155, 791757,
    793353, 794944, 796530, 798110, 799685, 801254, 802817, 804376, 805928, 807475,
    809017, 810553, 812084, 813608, 815128, 816642, 818150, 819652, 821149, 822641,
    824126, 825606, 827081, 828549, 830012, 831470, 832921, 834367, 835807, 837242,
    838671, 840094, 841511, 842922, 844328, 845728, 847122, 848510, 849893, 851269,
    852640, 854005, 855364, 856718, 858065, 859406, 860742, 862072, 863396, 864713,
    866025, 867331, 868632, 869926, 871214, 872496, 873772, 875042, 876307, 877565,
    878817, 880063, 881303, 882538, 883766, 884988, 886204, 887413, 888617, 889815,
    891007, 892192, 893371, 894545, 895712, 896873, 898028, 899176, 900319, 901455,
    902585, 903709, 904827, 905939, 907044, 908143, 909236, 910323, 911403, 912477,
    913545, 914607, 915663, 916712, 917755, 918791, 919821, 920845, 921863, 922875,
    923880, 924878, 925871, 926857, 927836, 928810, 929776, 930737, 931691, 932639,
    933580, 934515, 935444, 936366, 937282, 938191, 939094, 939991, 940881, 941764,
    942641, 943512, 944376, 945234, 946085, 946930, 947768, 948600, 949425, 950244,
    951057, 951862, 952661, 953454, 954240, 955020, 955793, 956560, 957319, 958073,
    958820, 959560, 960294, 961021, 961741, 962455, 963163, 963863, 964557, 965245,
    965926, 966600, 967268, 967929, 968583, 969231, 969872, 970506, 971134, 971755,
    972370, 972978, 973579, 974173, 974761, 975342, 975917, 976485, 977046, 977600,
    978148, 978689, 979223, 979750, 980271, 980785, 981293, 981793, 982287, 982774,
    983255, 983729, 984196, 984656, 985109, 985556, 985996, 986429, 986856, 987275,
    987688, 988094, 988494, 988886, 989272, 989651, 990024, 990389, 990748, 991100,
    991445, 991783, 992115, 992439, 992757, 993068, 993373, 993670, 993961, 994245,
    994522, 994792, 995056, 995312, 995562, 995805, 996041, 996270, 996493, 996709,
    996917, 997119, 997314, 997503, 997684, 997859, 998027, 998188, 998342, 998489,
    998630, 998763, 998890, 999010, 999123, 999229, 999328, 999421, 999507, 999585,
    999657, 999722, 999781, 999832, 999877, 999914, 999945, 999969, 999986, 999997,
    1000000,
];

/// How far the marker has moved from its old slot toward its new one when
/// `millis` milliseconds have passed, in millionths of a slot.
#[verifier::opaque]
pub open spec fn eased(millis: u64) -> u32 {
    let step = if millis >= MOVE_MILLIS {
        MOVE_MILLIS as int
    } else {
        millis as int
    };
    if EASE_OUT[step] > EASE_SCALE {
        EASE_SCALE
    } else {
        EASE_OUT[step]
    }
}

/// Computes [`eased`].
fn ease(millis: u64) -> (r: u32)
    ensures
        r == eased(millis),
        r <= EASE_SCALE,
{
    let step: usize = if millis >= MOVE_MILLIS {
        MOVE_MILLIS as usize
    } else {
        millis as usize
    };
    reveal(eased);
    let value = EASE_OUT[step];
    if value > EASE_SCALE {
        EASE_SCALE
    } else {
        value
    }
}

/// `a` divided by the positive `d`, rounded toward zero.
pub open spec fn toward_zero(a: int, d: int) -> int {
    if a >= 0 {
        a / d
    } else {
        -((-a) / d)
    }
}

/// The width in pixels of the slot of one screen when `count` screens share
/// `width` pixels.
pub open spec fn slot_width(width: u32, count: usize) -> int {
    (width as int) / (count as int)
}

/// The position of the left edge of the slot that the marker has reached,
/// in millionths of a pixel: it started at slot `from` and has moved `ease`
/// millionths of a slot to the left or to the right.
pub open spec fn marker_position(slot: int, from: int, to_left: bool, ease: int) -> int {
    if to_left {
        slot * from * EASE_SCALE - ease * slot
    } else {
        slot * from * EASE_SCALE + ease * slot
    }
}

/// How much of the collapse has passed after `millis` milliseconds, in
/// milliseconds.
pub open spec fn collapsed(millis: u64) -> int {
    if millis <= MOVE_MILLIS + WAIT_MILLIS {
        0
    } else if millis >= MOVE_MILLIS + WAIT_MILLIS + COLLAPSE_MILLIS {
        COLLAPSE_MILLIS as int
    } else {
        millis - MOVE_MILLIS - WAIT_MILLIS
    }
}

/// The width of the marker after `millis` milliseconds: four pixels less
/// than its slot, shrinking evenly to nothing while it collapses.
pub open spec fn marker_width(slot: int, millis: u64) -> int {
    if slot <= 4 {
        0
    } else {
        ((slot - 4) * (COLLAPSE_MILLIS - collapsed(millis))) / (COLLAPSE_MILLIS as int)
    }
}

/// The part of a segment `width` pixels wide with its left edge at `left`
/// that lies on a canvas `canvas_width` pixels wide, in pixels.
pub open spec fn visible_width(left: int, width: int, canvas_width: int) -> int {
    clamped(left + width, canvas_width) - clamped(left, canvas_width)
}

/// Where the marker goes past the left edge of the canvas, the copy drawn at
/// the right edge shows no more than what the marker itself does not show:
/// the two together are never wider than the marker.
pub proof fn lemma_wrapped_left(left: int, width: int, canvas_width: int)
    requires
        0 <= width,
        0 <= canvas_width,
    ensures
        visible_width(left, width, canvas_width) + visible_width(
            left + canvas_width,
            width,
            canvas_width,
        ) <= width,
{
}

/// Where the marker goes past the right edge of the canvas, the copy drawn
/// at the left edge shows no more than what the marker itself does not show:
/// the two together are never wider than the marker.
pub proof fn lemma_wrapped_right(left: int, width: int, canvas_width: int)
    requires
        0 <= width,
        0 <= canvas_width,
    ensures
        visible_width(left, width, canvas_width) + visible_width(
            left - canvas_width,
            width,
            canvas_width,
        ) <= width,
{
}

/// Shows, for a short time after the screen was switched, which screen of
/// how many is now active: a marker on the bottom row that moves from the
/// slot of the screen left to that of the screen reached, rests and
/// collapses.
#[derive(Clone, Copy, Debug, PartialEq, Eq, Structural)]
pub struct ScreenIndicator {
    elapsed: TimeSpan,
    num_screens: usize,
    from: usize,
    to_left: bool,
}

/// What is drawn of the indicator: the marker and where it is drawn.
pub struct Marker {
    /// The column of the left edge of the marker.
    pub left: int,
    /// The width of the marker.
    pub width: int,
    /// Whether the slot of the marker begins left of the canvas, so that a
    /// copy is drawn one canvas width further right.
    pub wraps_left: bool,
    /// Whether the slot of the marker ends right of the canvas, so that a
    /// copy is drawn one canvas width further left.
    pub wraps_right: bool,
}

impl ScreenIndicator {
    /// The time since the indicator was last armed.
    pub closed spec fn shown_for(&self) -> TimeSpan {
        self.elapsed
    }

    /// The number of screens.
    pub closed spec fn screens(&self) -> usize {
        self.num_screens
    }

    /// The index of the screen that was left.
    pub closed spec fn origin(&self) -> usize {
        self.from
    }

    /// Whether the marker moves to the left.
    pub closed spec fn leftward(&self) -> bool {
        self.to_left
    }

    /// There is a screen, and the screen that was left is one of them.
    pub open spec fn wf(&self) -> bool {
        self.origin() < self.screens()
    }

    /// Whether the indicator is within the time for which it is drawn.
    pub open spec fn showing(&self) -> bool {
        self.shown_for().nanos < SHOWN_NANOS
    }

    /// The indicator armed for a switch away from screen `from`.
    pub open spec fn armed(&self, next: &Self, from: usize, to_left: bool) -> bool {
        &&& next.shown_for().nanos == 0
        &&& next.screens() == self.screens()
        &&& next.origin() == from
        &&& next.leftward() == to_left
    }

    /// The indicator after `elapsed` more has passed.
    pub open spec fn aged(&self, next: &Self, elapsed: TimeSpan) -> bool {
        &&& next.shown_for().nanos == if self.shown_for().nanos + elapsed.nanos <= u64::MAX {
            self.shown_for().nanos + elapsed.nanos
        } else {
            u64::MAX as int
        }
        &&& next.screens() == self.screens()
        &&& next.origin() == self.origin()
        &&& next.leftward() == self.leftward()
    }

    /// The marker that is drawn into bounds `width` pixels wide on a canvas
    /// `canvas_width` pixels wide.
    pub open spec fn marker(&self, width: u32, canvas_width: int) -> Marker {
        let millis = self.shown_for().nanos / 1_000_000;
        let slot = slot_width(width, self.screens());
        let position = marker_position(
            slot,
            self.origin() as int,
            self.leftward(),
            eased(millis) as int,
        );
        let at = toward_zero(position, EASE_SCALE as int);
        let marker = marker_width(slot, millis);
        Marker {
            left: at + (slot - marker) / 2,
            width: marker,
            wraps_left: position < 0,
            wraps_right: at + slot - canvas_width > 0,
        }
    }

    /// The canvas after the indicator was drawn onto it into `bounds`: the
    /// marker on the row above the height of `bounds`, and a copy of it
    /// one canvas width further right or left where its slot goes past the
    /// left or the right edge.
    pub open spec fn painted(&self, canvas: Pixels, bounds: Bounds) -> Pixels {
        let marker = self.marker(bounds.size.width, canvas.width as int);
        let row = bounds.size.height - 1;
        let first = canvas.with_rect(marker.left, row, marker.width, 1);
        let second = if marker.wraps_left {
            first.with_rect(canvas.width + marker.left, row, marker.width, 1)
        } else {
            first
        };
        if marker.wraps_right {
            second.with_rect(marker.left - canvas.width, row, marker.width, 1)
        } else {
            second
        }
    }

    /// Whether the indicator can be drawn into `bounds` of `canvas`.
    pub open spec fn paintable(canvas: Pixels, bounds: Bounds) -> bool {
        &&& bounds.size.width <= MAX_EXTENT
        &&& bounds.size.height <= i32::MAX
        &&& canvas.width <= MAX_EXTENT
    }

    /// Computes [`ScreenIndicator::paintable`].
    pub fn is_paintable(canvas: &Bitmap, bounds: Bounds) -> (r: bool)
        ensures
            r == Self::paintable(canvas@, bounds),
    {
        bounds.size.width <= MAX_EXTENT && bounds.size.height <= i32::MAX as u32 && canvas.width
            <= MAX_EXTENT as usize
    }

    /// An indicator for `num_screens` screens, of which there must be one at
    /// least. It is not showing.
    pub fn new(num_screens: usize) -> (r: Self)
        requires
            num_screens > 0,
        ensures
            r.wf(),
            !r.showing(),
            r.shown_for().nanos == u64::MAX,
            r.screens() == num_screens,
            r.origin() == 0,
            r.leftward(),
    {
        ScreenIndicator { elapsed: TimeSpan::max(), num_screens, from: 0, to_left: true }
    }

    /// The time since the indicator was last armed.
    pub fn elapsed(&self) -> (r: TimeSpan)
        ensures
            r == self.shown_for(),
    {
        self.elapsed
    }

    /// The index of the screen that was left.
    pub fn from(&self) -> (r: usize)
        ensures
            r == self.origin(),
    {
        self.from
    }

    /// Whether the marker moves to the left.
    pub fn to_left(&self) -> (r: bool)
        ensures
            r == self.leftward(),
    {
        self.to_left
    }

    /// Whether the indicator is within the time for which it is drawn.
    pub fn should_draw(&self) -> (r: bool)
        ensures
            r == self.showing(),
    {
        self.elapsed.nanos < SHOWN_NANOS
    }

    /// Lets `elapsed` pass if the indicator is showing, and says whether it
    /// was.
    pub fn tick(&mut self, elapsed: &TimeSpan) -> (r: bool)
        ensures
            r == old(self).showing(),
            r ==> old(self).aged(final(self), *elapsed),
            !r ==> *final(self) == *old(self),
    {
        if self.should_draw() {
            self.elapsed = self.elapsed.saturating_add(*elapsed);
            return true;
        }
        false
    }

    /// Arms the indicator for a switch away from screen `from`, to the left
    /// or to the right.
    pub fn show(&mut self, from: usize, to_left: bool)
        requires
            from < old(self).screens(),
        ensures
            final(self).wf(),
            final(self).showing(),
            old(self).armed(final(self), from, to_left),
    {
        self.elapsed = TimeSpan::zero();
        self.from = from;
        self.to_left = to_left;
    }

    /// Computes [`ScreenIndicator::marker`]: the column of the left edge of
    /// the marker, its width, and whether it wraps to the left and to the
    /// right.
    fn marker_of(&self, bounds_width: u32, canvas_width: usize) -> (r: (i32, usize, bool, bool))
        requires
            self.wf(),
            bounds_width <= MAX_EXTENT,
            canvas_width <= MAX_EXTENT,
        ensures
            r.0 == self.marker(bounds_width, canvas_width as int).left,
            r.1 == self.marker(bounds_width, canvas_width as int).width,
            r.2 == self.marker(bounds_width, canvas_width as int).wraps_left,
            r.3 == self.marker(bounds_width, canvas_width as int).wraps_right,
            -(MAX_EXTENT as int) <= r.0 <= 2 * MAX_EXTENT,
            r.1 <= MAX_EXTENT,
    {
        let millis: u64 = self.elapsed.as_millis();
        let width: i64 = bounds_width as i64;
        let count: u64 = self.num_screens as u64;
        let slot: i64 = ((bounds_width as u64) / count) as i64;
        let from: u64 = self.from as u64;
        let eased: i64 = ease(millis) as i64;
        proof {
            assert(slot * count <= width) by (nonlinear_arith)
                requires
                    slot == (width as int) / (count as int),
                    count > 0,
                    width >= 0,
            ;
            assert(0 <= slot * from && slot * from + slot <= slot * count) by (nonlinear_arith)
                requires
                    0 <= from < count,
                    0 <= slot,
            ;
            assert(0 <= eased * slot <= 1_000_000 * slot) by (nonlinear_arith)
                requires
                    0 <= eased <= 1_000_000,
                    0 <= slot,
            ;
            assert(slot * from * 1_000_000 == (slot * from) * 1_000_000);
        }
        let start: i64 = ((slot as u64) * from) as i64;
        let position: i64 = if self.to_left {
            start * 1_000_000 - eased * slot
        } else {
            start * 1_000_000 + eased * slot
        };
        assert(position == marker_position(
            slot as int,
            self.origin() as int,
            self.leftward(),
            eased as int,
        ));
        let at: i64 = if position >= 0 {
            position / 1_000_000
        } else {
            -((-position) / 1_000_000)
        };
        assert(at == toward_zero(position as int, EASE_SCALE as int));
        assert(-slot <= at <= width);
        let shrunk: i64 = if millis <= MOVE_MILLIS + WAIT_MILLIS {
            0
        } else if millis >= MOVE_MILLIS + WAIT_MILLIS + COLLAPSE_MILLIS {
            COLLAPSE_MILLIS as i64
        } else {
            (millis - MOVE_MILLIS - WAIT_MILLIS) as i64
        };
        proof {
            if slot > 4 {
                assert(0 <= (slot - 4) * (400 - shrunk) <= (slot - 4) * 400) by (nonlinear_arith)
                    requires
                        0 <= shrunk <= 400,
                        slot > 4,
                ;
            }
        }
        let marker: i64 = if slot <= 4 {
            0
        } else {
            ((slot - 4) * (COLLAPSE_MILLIS as i64 - shrunk)) / (COLLAPSE_MILLIS as i64)
        };
        assert(marker == marker_width(slot as int, millis));
        assert(0 <= marker <= slot);
        let left: i64 = at + (slot - marker) / 2;
        (left as i32, marker as usize, position < 0, at + slot - (canvas_width as i64) > 0)
    }

    /// Draws the indicator as it stands.
    pub fn draw_to(&self, canvas: &mut Bitmap, bounds: Bounds)
        requires
            self.wf(),
            old(canvas).wf(),
            Self::paintable(old(canvas)@, bounds),
        ensures
            final(canvas).wf(),
            final(canvas)@ == self.painted(old(canvas)@, bounds),
    {
        let (left, marker, wraps_left, wraps_right) = self.marker_of(
            bounds.size.width,
            canvas.width,
        );
        let canvas_width: i32 = canvas.width as i32;
        let row: i32 = (bounds.size.height as i64 - 1) as i32;
        canvas.draw_rect(left, row, marker, 1);
        if wraps_left {
            canvas.draw_rect(canvas_width + left, row, marker, 1);
        }
        if wraps_right {
            canvas.draw_rect(left - canvas_width, row, marker, 1);
        }
    }
}

/// Of the marker and its copy no more is ever visible than the marker is
/// wide: in bounds no wider than the canvas the marker wraps around one
/// edge at most, and the copy shows only what the marker itself has lost
/// beyond that edge.
pub proof fn lemma_marker_visible(indicator: ScreenIndicator, width: u32, canvas_width: int)
    requires
        indicator.wf(),
        width <= canvas_width,
    ensures
        ({
            let marker = indicator.marker(width, canvas_width);
            &&& 0 <= marker.width
            &&& !(marker.wraps_left && marker.wraps_right)
            &&& visible_width(marker.left, marker.width, canvas_width) + (if marker.wraps_left {
                visible_width(marker.left + canvas_width, marker.width, canvas_width)
            } else {
                0
            }) + (if marker.wraps_right {
                visible_width(marker.left - canvas_width, marker.width, canvas_width)
            } else {
                0
            }) <= marker.width
        }),
{
    let millis = (indicator.shown_for().nanos / 1_000_000) as u64;
    let count = indicator.screens() as int;
    let slot = slot_width(width, indicator.screens());
    let marker = indicator.marker(width, canvas_width);
    assert(0 <= slot <= width) by (nonlinear_arith)
        requires
            slot == (width as int) / count,
            count > 0,
            width >= 0,
    ;
    if slot > 4 {
        assert(0 <= (slot - 4) * (COLLAPSE_MILLIS - collapsed(millis))) by (nonlinear_arith)
            requires
                slot > 4,
                0 <= COLLAPSE_MILLIS - collapsed(millis),
        ;
    }
    lemma_wrapped_left(marker.left, marker.width, canvas_width);
    lemma_wrapped_right(marker.left, marker.width, canvas_width);
}

/// On a canvas that was dark, in bounds no wider than the canvas, the
/// indicator lights pixels on its row only, and no more of them than the
/// marker is wide; the marker is at least four pixels narrower than its
/// slot.
pub proof fn lemma_marker_lit(indicator: ScreenIndicator, canvas: Pixels, bounds: Bounds)
    requires
        indicator.wf(),
        canvas.wf(),
        canvas.dark(),
        bounds.size.width <= canvas.width,
    ensures
        ({
            let result = indicator.painted(canvas, bounds);
            let row = bounds.size.height - 1;
            let marker = indicator.marker(bounds.size.width, canvas.width as int);
            &&& forall|x: int, y: int|
                result.holds(x, y) && #[trigger] result.get(x, y) != 0 ==> y == row
            &&& result.lit_columns(row).finite()
            &&& result.lit_columns(row).len() <= marker.width
            &&& marker.width == 0 || marker.width <= slot_width(
                bounds.size.width,
                indicator.screens(),
            ) - 4
        }),
{
    let width = canvas.width as int;
    let result = indicator.painted(canvas, bounds);
    let row = bounds.size.height - 1;
    let marker = indicator.marker(bounds.size.width, width);
    let first = canvas.with_rect(marker.left, row, marker.width, 1);
    let second = if marker.wraps_left {
        first.with_rect(width + marker.left, row, marker.width, 1)
    } else {
        first
    };
    lemma_marker_visible(indicator, bounds.size.width, width);
    let copy_left = if marker.wraps_left {
        marker.left + width
    } else {
        marker.left - width
    };
    let main = set_int_range(clamped(marker.left, width), clamped(marker.left + marker.width, width));
    let copy = if marker.wraps_left || marker.wraps_right {
        set_int_range(clamped(copy_left, width), clamped(copy_left + marker.width, width))
    } else {
        Set::empty()
    };
    lemma_int_range(clamped(marker.left, width), clamped(marker.left + marker.width, width));
    lemma_int_range(clamped(copy_left, width), clamped(copy_left + marker.width, width));
    assert forall|x: int, y: int| result.holds(x, y) && #[trigger] result.get(x, y) != 0 implies y
        == row && main.union(copy).contains(x) by {
        lemma_position_in_data(width, canvas.height as int, x, y);
        lemma_rect_pixel(canvas, marker.left, row, marker.width, 1, x, y);
        lemma_rect_pixel(first, width + marker.left, row, marker.width, 1, x, y);
        lemma_rect_pixel(second, marker.left - width, row, marker.width, 1, x, y);
    }
    assert(result.lit_columns(row).subset_of(main.union(copy))) by {
        assert forall|x: int| result.lit_columns(row).contains(x) implies main.union(
            copy,
        ).contains(x) by {
            assert(result.get(x, row) != 0);
        }
    }
    lemma_len_union(main, copy);
    lemma_len_subset(result.lit_columns(row), main.union(copy));
    let slot = slot_width(bounds.size.width, indicator.screens());
    let millis = (indicator.shown_for().nanos / 1_000_000) as u64;
    if slot > 4 {
        assert((slot - 4) * (COLLAPSE_MILLIS - collapsed(millis)) <= (slot - 4) * 400)
            by (nonlinear_arith)
            requires
                slot > 4,
                0 <= COLLAPSE_MILLIS - collapsed(millis) <= 400,
        ;
    }
}

impl Drawable for ScreenIndicator {
    open spec fn wf(&self) -> bool {
        self.origin() < self.screens()
    }

    open spec fn fits(&self, canvas: Pixels, bounds: Bounds) -> bool {
        Self::paintable(canvas, bounds)
    }

    open spec fn draws(
        &self,
        next: &Self,
        canvas: Pixels,
        result: Pixels,
        bounds: Bounds,
        elapsed: TimeSpan,
    ) -> bool {
        &&& self.aged(next, elapsed)
        &&& result == next.painted(canvas, bounds)
    }

    fn can_draw(&self, canvas: &Bitmap, bounds: Bounds) -> (r: bool) {
        Self::is_paintable(canvas, bounds)
    }

    /// Lets `elapsed` pass and draws the indicator.
    fn draw(&mut self, canvas: &mut Bitmap, bounds: Bounds, elapsed: &TimeSpan) {
        self.elapsed = self.elapsed.saturating_add(*elapsed);
        self.draw_to(canvas, bounds);
    }
}

} // verus!
