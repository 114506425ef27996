use vstd::prelude::*;
use crate::rendering::bitmap::{Bitmap, Pixels};

verus! {

/// A width and a height, each resolved or not.
#[derive(Clone, Copy)]
pub struct Size<W, H> {
    pub width: W,
    pub height: H,
}

/// A column and a row, each resolved or not.
#[derive(Clone, Copy)]
pub struct Point<X: Copy, Y: Copy> {
    pub x: X,
    pub y: Y,
}

/// A rectangle whose four fields are each either resolved (an integer) or
/// not yet determined (the unit type). An operation is only available on a
/// rectangle whose type has the fields it reads resolved, so a position that
/// has not been computed yet cannot be queried.
///
/// No operation mutates: each returns a new rectangle.
#[derive(Clone, Copy)]
pub struct Rect<X: Copy, Y: Copy, W: Copy, H: Copy> {
    pub pos: Point<X, Y>,
    pub size: Size<W, H>,
}

/// A fully resolved rectangle, the target of every draw call.
pub type Bounds = Rect<i32, i32, u32, u32>;

/// A rectangle with no field resolved, the start of a layout computation.
pub type EmptyBounds = Rect<(), (), (), ()>;

/// The coordinate that centers an extent of `inner` pixels within an extent
/// of `outer` pixels starting at `start`. Of the two candidate positions that
/// an odd difference leaves, it is the smaller one: the bias is toward the
/// top-left, also where the inner extent is the larger one.
pub open spec fn centered(start: int, outer: int, inner: int) -> int {
    start + (outer - inner) / 2
}

/// The bounds of the given size in the center of `other`.
pub open spec fn centered_bounds(size: Size<u32, u32>, other: Bounds) -> Bounds {
    Rect {
        pos: Point {
            x: centered(other.pos.x as int, other.size.width as int, size.width as int) as i32,
            y: centered(other.pos.y as int, other.size.height as int, size.height as int) as i32,
        },
        size,
    }
}

/// Computes [`centered`].
fn center(start: i32, outer: u32, inner: u32) -> (r: i64)
    ensures
        r == centered(start as int, outer as int, inner as int),
{
    if outer >= inner {
        start as i64 + ((outer - inner) / 2) as i64
    } else {
        start as i64 - ((inner - outer) as i64 + 1) / 2
    }
}

/// The bounds that cover a bitmap: at the origin and of its size.
pub open spec fn cover(bitmap: Pixels) -> Bounds {
    Rect {
        pos: Point { x: 0, y: 0 },
        size: Size { width: bitmap.width as u32, height: bitmap.height as u32 },
    }
}

impl EmptyBounds {
    /// The rectangle with no field resolved.
    pub fn new() -> (r: Self)
        ensures
            r == (Rect { pos: Point { x: (), y: () }, size: Size { width: (), height: () } }),
    {
        EmptyBounds { pos: Point { x: (), y: () }, size: Size { width: (), height: () } }
    }
}

impl Bounds {
    /// The rectangle at the origin that covers the whole of `bitmap`.
    pub fn cover_bitmap(bitmap: &Bitmap) -> (r: Self)
        requires
            bitmap.width <= u32::MAX,
            bitmap.height <= u32::MAX,
        ensures
            r == cover(bitmap@),
            r.pos.x == 0,
            r.pos.y == 0,
            r.size.width == bitmap.width,
            r.size.height == bitmap.height,
    {
        Bounds {
            pos: Point { x: 0, y: 0 },
            size: Size { width: bitmap.width as u32, height: bitmap.height as u32 },
        }
    }
}

// From x
impl<Y: Copy, W: Copy, H: Copy> Rect<i32, Y, W, H> {
    /// Moves the rectangle horizontally.
    pub fn move_x(&self, by: i32) -> (r: Rect<i32, Y, W, H>)
        requires
            i32::MIN <= self.pos.x + by <= i32::MAX,
        ensures
            r.pos.x == self.pos.x + by,
            r.pos.y == self.pos.y,
            r.size == self.size,
    {
        Rect { pos: Point { x: self.pos.x + by, y: self.pos.y }, size: self.size }
    }
}

// From y
impl<X: Copy, W: Copy, H: Copy> Rect<X, i32, W, H> {
    /// Moves the rectangle vertically.
    pub fn move_y(&self, by: i32) -> (r: Rect<X, i32, W, H>)
        requires
            i32::MIN <= self.pos.y + by <= i32::MAX,
        ensures
            r.pos.x == self.pos.x,
            r.pos.y == self.pos.y + by,
            r.size == self.size,
    {
        Rect { pos: Point { x: self.pos.x, y: self.pos.y + by }, size: self.size }
    }
}

// From width
impl<X: Copy, Y: Copy, H: Copy> Rect<X, Y, u32, H> {
    /// Aligns the right edge of `self` with the left edge of `other`.
    pub fn left_of<Y2: Copy, W2: Copy, H2: Copy>(&self, other: &Rect<i32, Y2, W2, H2>) -> (r: Rect<
        i32,
        Y,
        u32,
        H,
    >)
        requires
            i32::MIN <= other.pos.x - self.size.width,
        ensures
            r.pos.x + self.size.width == other.pos.x,
            r.pos.y == self.pos.y,
            r.size == self.size,
    {
        let x: i64 = other.pos.x as i64 - self.size.width as i64;
        Rect { pos: Point { x: x as i32, y: self.pos.y }, size: self.size }
    }

    /// Aligns the left edge of `self` with the right edge of `other`.
    pub fn right_of<Y2: Copy, H2: Copy>(&self, other: &Rect<i32, Y2, u32, H2>) -> (r: Rect<
        i32,
        Y,
        u32,
        H,
    >)
        requires
            other.pos.x + other.size.width <= i32::MAX,
        ensures
            r.pos.x == other.pos.x + other.size.width,
            r.pos.y == self.pos.y,
            r.size == self.size,
    {
        Rect { pos: Point { x: other.right(), y: self.pos.y }, size: self.size }
    }

    /// Aligns the right edge of `self` with the right edge of `other`.
    pub fn align_right<Y2: Copy, H2: Copy>(&self, other: &Rect<i32, Y2, u32, H2>) -> (r: Rect<
        i32,
        Y,
        u32,
        H,
    >)
        requires
            i32::MIN <= other.pos.x + other.size.width - self.size.width <= i32::MAX,
        ensures
            r.pos.x + self.size.width == other.pos.x + other.size.width,
            r.pos.y == self.pos.y,
            r.size == self.size,
    {
        let x: i64 = other.pos.x as i64 + other.size.width as i64 - self.size.width as i64;
        Rect { pos: Point { x: x as i32, y: self.pos.y }, size: self.size }
    }

    /// `self` moved to the horizontal center of `other`.
    pub open spec fn centered_hor_in<Y2: Copy, H2: Copy>(
        self,
        other: Rect<i32, Y2, u32, H2>,
    ) -> Rect<i32, Y, u32, H> {
        Rect {
            pos: Point {
                x: centered(
                    other.pos.x as int,
                    other.size.width as int,
                    self.size.width as int,
                ) as i32,
                y: self.pos.y,
            },
            size: self.size,
        }
    }

    /// Positions `self` in the horizontal center of `other`.
    pub fn center_hor_in<Y2: Copy, H2: Copy>(&self, other: &Rect<i32, Y2, u32, H2>) -> (r: Rect<
        i32,
        Y,
        u32,
        H,
    >)
        requires
            i32::MIN <= centered(
                other.pos.x as int,
                other.size.width as int,
                self.size.width as int,
            ) <= i32::MAX,
        ensures
            r == self.centered_hor_in(*other),
            r.pos.x == centered(
                other.pos.x as int,
                other.size.width as int,
                self.size.width as int,
            ),
    {
        let x: i64 = center(other.pos.x, other.size.width, self.size.width);
        Rect { pos: Point { x: x as i32, y: self.pos.y }, size: self.size }
    }
}

// From height
impl<X: Copy, Y: Copy, W: Copy> Rect<X, Y, W, u32> {
    /// Aligns the bottom edge of `self` with the top edge of `other`.
    pub fn above<X2: Copy, W2: Copy, H2: Copy>(&self, other: &Rect<X2, i32, W2, H2>) -> (r: Rect<
        X,
        i32,
        W,
        u32,
    >)
        requires
            i32::MIN <= other.pos.y - self.size.height,
        ensures
            r.pos.x == self.pos.x,
            r.pos.y + self.size.height == other.pos.y,
            r.size == self.size,
    {
        let y: i64 = other.pos.y as i64 - self.size.height as i64;
        Rect { pos: Point { x: self.pos.x, y: y as i32 }, size: self.size }
    }

    /// Aligns the top edge of `self` with the bottom edge of `other`.
    pub fn below<X2: Copy, W2: Copy>(&self, other: &Rect<X2, i32, W2, u32>) -> (r: Rect<
        X,
        i32,
        W,
        u32,
    >)
        requires
            other.pos.y + other.size.height <= i32::MAX,
        ensures
            r.pos.x == self.pos.x,
            r.pos.y == other.pos.y + other.size.height,
            r.size == self.size,
    {
        Rect { pos: Point { x: self.pos.x, y: other.bottom() }, size: self.size }
    }

    /// Aligns the bottom edge of `self` with the bottom edge of `other`.
    pub fn align_bottom<X2: Copy, W2: Copy>(&self, other: &Rect<X2, i32, W2, u32>) -> (r: Rect<
        X,
        i32,
        W,
        u32,
    >)
        requires
            i32::MIN <= other.pos.y + other.size.height - self.size.height <= i32::MAX,
        ensures
            r.pos.x == self.pos.x,
            r.pos.y + self.size.height == other.pos.y + other.size.height,
            r.size == self.size,
    {
        let y: i64 = other.pos.y as i64 + other.size.height as i64 - self.size.height as i64;
        Rect { pos: Point { x: self.pos.x, y: y as i32 }, size: self.size }
    }

    /// `self` moved to the vertical center of `other`.
    pub open spec fn centered_ver_in<X2: Copy, W2: Copy>(
        self,
        other: Rect<X2, i32, W2, u32>,
    ) -> Rect<X, i32, W, u32> {
        Rect {
            pos: Point {
                x: self.pos.x,
                y: centered(
                    other.pos.y as int,
                    other.size.height as int,
                    self.size.height as int,
                ) as i32,
            },
            size: self.size,
        }
    }

    /// Positions `self` in the vertical center of `other`.
    pub fn center_ver_in<X2: Copy, W2: Copy>(&self, other: &Rect<X2, i32, W2, u32>) -> (r: Rect<
        X,
        i32,
        W,
        u32,
    >)
        requires
            i32::MIN <= centered(
                other.pos.y as int,
                other.size.height as int,
                self.size.height as int,
            ) <= i32::MAX,
        ensures
            r == self.centered_ver_in(*other),
            r.pos.y == centered(
                other.pos.y as int,
                other.size.height as int,
                self.size.height as int,
            ),
    {
        let y: i64 = center(other.pos.y, other.size.height, self.size.height);
        Rect { pos: Point { x: self.pos.x, y: y as i32 }, size: self.size }
    }
}

// From width & height
impl<X: Copy, Y: Copy> Rect<X, Y, u32, u32> {
    /// Positions `self` in the horizontal and vertical center of `other`.
    pub fn center_in(&self, other: &Bounds) -> (r: Bounds)
        requires
            i32::MIN <= centered(
                other.pos.x as int,
                other.size.width as int,
                self.size.width as int,
            ) <= i32::MAX,
            i32::MIN <= centered(
                other.pos.y as int,
                other.size.height as int,
                self.size.height as int,
            ) <= i32::MAX,
        ensures
            r == self.centered_hor_in(*other).centered_ver_in(*other),
            r == centered_bounds(self.size, *other),
            r.pos.x == centered(
                other.pos.x as int,
                other.size.width as int,
                self.size.width as int,
            ),
            r.pos.y == centered(
                other.pos.y as int,
                other.size.height as int,
                self.size.height as int,
            ),
            r.size == self.size,
    {
        self.center_hor_in(other).center_ver_in(other)
    }
}

// From x & width
impl<Y: Copy, H: Copy> Rect<i32, Y, u32, H> {
    /// Returns the right edge of `self`.
    pub fn right(&self) -> (r: i32)
        requires
            self.pos.x + self.size.width <= i32::MAX,
        ensures
            r == self.pos.x + self.size.width,
    {
        let r: i64 = self.pos.x as i64 + self.size.width as i64;
        r as i32
    }
}

// From y & height
impl<X: Copy, W: Copy> Rect<X, i32, W, u32> {
    /// Returns the bottom edge of `self`.
    pub fn bottom(&self) -> (r: i32)
        requires
            self.pos.y + self.size.height <= i32::MAX,
        ensures
            r == self.pos.y + self.size.height,
    {
        let r: i64 = self.pos.y as i64 + self.size.height as i64;
        r as i32
    }
}

// From nothing
impl<X: Copy, Y: Copy, W: Copy, H: Copy> Rect<X, Y, W, H> {
    /// Resolves the left edge to `value`.
    pub fn with_x(&self, value: i32) -> (r: Rect<i32, Y, W, H>)
        ensures
            r.pos.x == value,
            r.pos.y == self.pos.y,
            r.size == self.size,
    {
        Rect { pos: Point { x: value, y: self.pos.y }, size: self.size }
    }

    /// Resolves the top edge to `value`.
    pub fn with_y(&self, value: i32) -> (r: Rect<X, i32, W, H>)
        ensures
            r.pos.x == self.pos.x,
            r.pos.y == value,
            r.size == self.size,
    {
        Rect { pos: Point { x: self.pos.x, y: value }, size: self.size }
    }

    /// Resolves the width to `value`.
    pub fn with_width(&self, value: u32) -> (r: Rect<X, Y, u32, H>)
        ensures
            r.pos == self.pos,
            r.size.width == value,
            r.size.height == self.size.height,
    {
        Rect { pos: self.pos, size: Size { width: value, height: self.size.height } }
    }

    /// Resolves the height to `value`.
    pub fn with_height(&self, value: u32) -> (r: Rect<X, Y, W, u32>)
        ensures
            r.pos == self.pos,
            r.size.width == self.size.width,
            r.size.height == value,
    {
        Rect { pos: self.pos, size: Size { width: self.size.width, height: value } }
    }

    /// Resolves width and height to those of `size`.
    pub fn with_size(&self, size: Size<u32, u32>) -> (r: Rect<X, Y, u32, u32>)
        ensures
            r.pos == self.pos,
            r.size == size,
    {
        Rect { pos: self.pos, size }
    }

    /// Sets the left edge of `self` to `x1` and the right edge of `self` to
    /// `x2`, which must not lie left of `x1`.
    pub fn between_hor(&self, x1: i32, x2: i32) -> (r: Rect<i32, Y, u32, H>)
        requires
            x1 <= x2,
        ensures
            r.pos.x == x1,
            r.pos.x + r.size.width == x2,
            r.pos.y == self.pos.y,
            r.size.height == self.size.height,
    {
        let width: i64 = x2 as i64 - x1 as i64;
        Rect {
            pos: Point { x: x1, y: self.pos.y },
            size: Size { width: width as u32, height: self.size.height },
        }
    }

    /// Sets the top edge of `self` to `y1` and the bottom edge of `self` to
    /// `y2`, which must not lie above `y1`.
    pub fn between_ver(&self, y1: i32, y2: i32) -> (r: Rect<X, i32, W, u32>)
        requires
            y1 <= y2,
        ensures
            r.pos.x == self.pos.x,
            r.pos.y == y1,
            r.pos.y + r.size.height == y2,
            r.size.width == self.size.width,
    {
        let height: i64 = y2 as i64 - y1 as i64;
        Rect {
            pos: Point { x: self.pos.x, y: y1 },
            size: Size { width: self.size.width, height: height as u32 },
        }
    }

    /// Aligns the left edge of `self` with the left edge of `other`.
    pub fn align_left<Y2: Copy, W2: Copy, H2: Copy>(&self, other: &Rect<i32, Y2, W2, H2>) -> (r:
        Rect<i32, Y, W, H>)
        ensures
            r.pos.x == other.pos.x,
            r.pos.y == self.pos.y,
            r.size == self.size,
    {
        Rect { pos: Point { x: other.pos.x, y: self.pos.y }, size: self.size }
    }

    /// Aligns the top edge of `self` with the top edge of `other`.
    pub fn align_top<X2: Copy, W2: Copy, H2: Copy>(&self, other: &Rect<X2, i32, W2, H2>) -> (r:
        Rect<X, i32, W, H>)
        ensures
            r.pos.x == self.pos.x,
            r.pos.y == other.pos.y,
            r.size == self.size,
    {
        Rect { pos: Point { x: self.pos.x, y: other.pos.y }, size: self.size }
    }
}

/// Centering is idempotent: a rectangle that was centered horizontally in a
/// container and is centered in the same container again stays where it is.
pub proof fn lemma_center_hor_idempotent(rect: Bounds, container: Bounds)
    ensures
        rect.centered_hor_in(container).centered_hor_in(container) == rect.centered_hor_in(
            container,
        ),
{
}

/// Centering is idempotent: a rectangle that was centered vertically in a
/// container and is centered in the same container again stays where it is.
pub proof fn lemma_center_ver_idempotent(rect: Bounds, container: Bounds)
    ensures
        rect.centered_ver_in(container).centered_ver_in(container) == rect.centered_ver_in(
            container,
        ),
{
}

/// Centering is idempotent: a rectangle that was centered in a container on
/// both axes and is centered in the same container again stays where it is.
pub proof fn lemma_center_idempotent(rect: Bounds, container: Bounds)
    ensures
        centered_bounds(centered_bounds(rect.size, container).size, container) == centered_bounds(
            rect.size,
            container,
        ),
{
}

/// A centered extent leaves margins on its two sides that differ by at most
/// one pixel, the smaller one in front: the truncation is biased toward the
/// top-left.
pub proof fn lemma_centered_margins(start: int, outer: int, inner: int)
    ensures
        ({
            let front = centered(start, outer, inner) - start;
            let back = (start + outer) - (centered(start, outer, inner) + inner);
            front <= back <= front + 1
        }),
{
}

/// The largest coordinate of the far edges of bounds into which every widget
/// can be laid out and drawn.
pub const MAX_EXTENT: u32 = 0x1fff_ffff;

impl Bounds {
    /// Whether the rectangle lies where the layout of texts and gauges
    /// within it stays within the range of a coordinate: no edge is further
    /// from the origin than [`MAX_EXTENT`].
    pub open spec fn modest(self) -> bool {
        &&& -(MAX_EXTENT as int) <= self.pos.x
        &&& -(MAX_EXTENT as int) <= self.pos.y
        &&& self.pos.x + self.size.width <= MAX_EXTENT
        &&& self.pos.y + self.size.height <= MAX_EXTENT
    }

    /// Computes [`Bounds::modest`].
    pub fn is_modest(&self) -> (r: bool)
        ensures
            r == self.modest(),
    {
        self.pos.x >= -(MAX_EXTENT as i32) && self.pos.y >= -(MAX_EXTENT as i32) && self.pos.x as i64
            + self.size.width as i64 <= MAX_EXTENT as i64 && self.pos.y as i64
            + self.size.height as i64 <= MAX_EXTENT as i64
    }
}

/// Whether an extent of `width` pixels can be centered horizontally in
/// `other`: the coordinate is within the range of its type.
pub open spec fn centerable_hor(width: u32, other: Bounds) -> bool {
    i32::MIN <= centered(other.pos.x as int, other.size.width as int, width as int) <= i32::MAX
}

/// Whether an extent of `height` pixels can be centered vertically in
/// `other`: the coordinate is within the range of its type.
pub open spec fn centerable_ver(height: u32, other: Bounds) -> bool {
    i32::MIN <= centered(other.pos.y as int, other.size.height as int, height as int)
        <= i32::MAX
}

/// Whether a rectangle of the given size can be centered in `other`.
pub open spec fn centerable(size: Size<u32, u32>, other: Bounds) -> bool {
    centerable_hor(size.width, other) && centerable_ver(size.height, other)
}

/// Computes [`centerable_hor`].
pub fn can_center_hor(width: u32, other: &Bounds) -> (r: bool)
    ensures
        r == centerable_hor(width, *other),
{
    let x = center(other.pos.x, other.size.width, width);
    i32::MIN as i64 <= x && x <= i32::MAX as i64
}

/// Computes [`centerable_ver`].
pub fn can_center_ver(height: u32, other: &Bounds) -> (r: bool)
    ensures
        r == centerable_ver(height, *other),
{
    let y = center(other.pos.y, other.size.height, height);
    i32::MIN as i64 <= y && y <= i32::MAX as i64
}

/// Computes [`centerable`].
pub fn can_center(size: Size<u32, u32>, other: &Bounds) -> (r: bool)
    ensures
        r == centerable(size, *other),
{
    can_center_hor(size.width, other) && can_center_ver(size.height, other)
}

} // verus!
