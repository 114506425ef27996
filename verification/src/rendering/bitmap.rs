use vstd::prelude::*;
use vstd::arithmetic::div_mod::{lemma_fundamental_div_mod, lemma_fundamental_div_mod_converse};
use vstd::slice::slice_to_vec;

verus! {

/// The highest intensity a pixel can have.
pub const FULL: u8 = 0xff;

/// A monochrome buffer we can draw to. Pixels are one byte each, stored row
/// by row.
#[derive(Clone)]
pub struct Bitmap {
    pub width: usize,
    pub height: usize,
    pub buffer: Vec<u8>,
}

/// The column of the pixel at index `i` of a row-major buffer.
pub open spec fn column_of(i: int, width: int) -> int {
    i % width
}

/// The row of the pixel at index `i` of a row-major buffer.
pub open spec fn row_of(i: int, width: int) -> int {
    i / width
}

/// The mathematical model of a [`Bitmap`]: its dimensions and its pixels,
/// row by row.
#[verifier::ext_equal]
pub struct Pixels {
    pub width: nat,
    pub height: nat,
    pub data: Seq<u8>,
}

impl Pixels {
    /// The data holds a pixel for every position.
    pub open spec fn wf(self) -> bool {
        self.width * self.height <= self.data.len()
    }

    /// Whether `(x, y)` is a position of this bitmap.
    pub open spec fn holds(self, x: int, y: int) -> bool {
        0 <= x < self.width && 0 <= y < self.height
    }

    /// The pixel at `(x, y)`.
    pub open spec fn get(self, x: int, y: int) -> u8 {
        self.data[y * self.width + x]
    }

    /// The columns of row `row` whose pixel has the highest intensity.
    pub open spec fn lit_columns(self, row: int) -> Set<int> {
        Set::new(|x: int| self.holds(x, row) && self.get(x, row) == FULL)
    }

    /// Whether every pixel is zero.
    pub open spec fn dark(self) -> bool {
        forall|i: int| 0 <= i < self.data.len() ==> self.data[i] == 0
    }

    /// Every pixel set to zero.
    pub open spec fn cleared(self) -> Pixels {
        Pixels { data: Seq::new(self.data.len(), |i: int| 0u8), ..self }
    }

    /// `src` OR-composited onto this bitmap with its top-left corner at
    /// `(x, y)`, clipped on all edges.
    pub open spec fn with_bitmap(self, x: int, y: int, src: Pixels) -> Pixels {
        Pixels {
            data: Seq::new(
                self.data.len(),
                |i: int|
                    if i < self.width * self.height && src.holds(
                        column_of(i, self.width as int) - x,
                        row_of(i, self.width as int) - y,
                    ) {
                        self.data[i] | src.get(
                            column_of(i, self.width as int) - x,
                            row_of(i, self.width as int) - y,
                        )
                    } else {
                        self.data[i]
                    },
            ),
            ..self
        }
    }

    /// Whether position `(px, py)` lies in the rectangle of the given size
    /// with its top-left corner at `(x, y)`.
    pub open spec fn in_rect(px: int, py: int, x: int, y: int, width: int, height: int) -> bool {
        x <= px < x + width && y <= py < y + height
    }

    /// The rectangle of the given size at `(x, y)` filled with the highest
    /// intensity, clipped on all edges.
    pub open spec fn with_rect(self, x: int, y: int, width: int, height: int) -> Pixels {
        Pixels {
            data: Seq::new(
                self.data.len(),
                |i: int|
                    if i < self.width * self.height && Self::in_rect(
                        column_of(i, self.width as int),
                        row_of(i, self.width as int),
                        x,
                        y,
                        width,
                        height,
                    ) {
                        FULL
                    } else {
                        self.data[i]
                    },
            ),
            ..self
        }
    }

    /// Whether position `(px, py)` lies on a slit: its row and its column
    /// leave the same remainder when divided by `interval`.
    pub open spec fn on_slit(px: int, py: int, interval: int) -> bool {
        py % interval == px % interval
    }

    /// As [`Pixels::with_rect`], but the positions on a slit keep their
    /// value.
    pub open spec fn with_slit_rect(
        self,
        x: int,
        y: int,
        width: int,
        height: int,
        interval: int,
    ) -> Pixels {
        Pixels {
            data: Seq::new(
                self.data.len(),
                |i: int|
                    if i < self.width * self.height && Self::in_rect(
                        column_of(i, self.width as int),
                        row_of(i, self.width as int),
                        x,
                        y,
                        width,
                        height,
                    ) && !Self::on_slit(
                        column_of(i, self.width as int),
                        row_of(i, self.width as int),
                        interval,
                    ) {
                        FULL
                    } else {
                        self.data[i]
                    },
            ),
            ..self
        }
    }
}

impl View for Bitmap {
    type V = Pixels;

    open spec fn view(&self) -> Pixels {
        Pixels { width: self.width as nat, height: self.height as nat, data: self.buffer@ }
    }
}

/// The index of position `(x, y)` in a row-major buffer of the given width
/// has column `x` and row `y`.
pub proof fn lemma_index_of_position(width: int, x: int, y: int)
    requires
        0 <= x < width,
    ensures
        column_of(y * width + x, width) == x,
        row_of(y * width + x, width) == y,
{
    lemma_fundamental_div_mod_converse(y * width + x, width, y, x);
}

/// An index of a row-major buffer is the index of its own row and column.
pub proof fn lemma_position_of_index(width: int, i: int)
    requires
        0 < width,
    ensures
        i == row_of(i, width) * width + column_of(i, width),
        0 <= column_of(i, width) < width,
        0 <= i ==> 0 <= row_of(i, width),
{
    lemma_fundamental_div_mod(i, width);
    assert(width * (i / width) == (i / width) * width) by (nonlinear_arith);
    if 0 <= i {
        assert(0 <= i / width) by (nonlinear_arith)
            requires
                0 <= i,
                0 < width,
        ;
    }
}

/// An index below `width * height` lies in one of the `height` rows.
pub proof fn lemma_row_in_bounds(width: int, height: int, i: int)
    requires
        0 < width,
        0 <= i < width * height,
    ensures
        0 <= row_of(i, width) < height,
{
    lemma_position_of_index(width, i);
    let r = row_of(i, width);
    if r >= height {
        assert(r * width >= height * width) by (nonlinear_arith)
            requires
                r >= height,
                0 < width,
        ;
        assert(height * width == width * height) by (nonlinear_arith);
    }
}

/// A position of a well-formed bitmap has its index within the data.
pub proof fn lemma_position_in_data(width: int, height: int, x: int, y: int)
    requires
        0 <= x < width,
        0 <= y < height,
    ensures
        0 <= y * width + x < width * height,
{
    assert(0 <= y * width) by (nonlinear_arith)
        requires
            0 <= y,
            0 <= width,
    ;
    assert(y * width + width <= height * width) by (nonlinear_arith)
        requires
            y + 1 <= height,
            0 <= width,
    ;
    assert(height * width == width * height) by (nonlinear_arith);
}

/// Filling a rectangle sets the pixels at the positions within it to the
/// highest intensity and leaves the pixels at all other positions as they
/// were.
pub proof fn lemma_rect_pixel(
    canvas: Pixels,
    x: int,
    y: int,
    width: int,
    height: int,
    px: int,
    py: int,
)
    requires
        canvas.wf(),
        canvas.holds(px, py),
    ensures
        canvas.with_rect(x, y, width, height).get(px, py) == if Pixels::in_rect(
            px,
            py,
            x,
            y,
            width,
            height,
        ) {
            FULL
        } else {
            canvas.get(px, py)
        },
{
    lemma_position_in_data(canvas.width as int, canvas.height as int, px, py);
    lemma_index_of_position(canvas.width as int, px, py);
}

/// Filling a rectangle with slits sets the pixels at the positions within
/// it that are on no slit to the highest intensity and leaves the pixels at
/// all other positions as they were.
pub proof fn lemma_slit_rect_pixel(
    canvas: Pixels,
    x: int,
    y: int,
    width: int,
    height: int,
    interval: int,
    px: int,
    py: int,
)
    requires
        canvas.wf(),
        canvas.holds(px, py),
    ensures
        canvas.with_slit_rect(x, y, width, height, interval).get(px, py) == if Pixels::in_rect(
            px,
            py,
            x,
            y,
            width,
            height,
        ) && !Pixels::on_slit(px, py, interval) {
            FULL
        } else {
            canvas.get(px, py)
        },
{
    lemma_position_in_data(canvas.width as int, canvas.height as int, px, py);
    lemma_index_of_position(canvas.width as int, px, py);
}

/// Drawing a bitmap at `(x, y)` ORs onto the pixel at each position that
/// the bitmap covers the pixel of the bitmap that comes to lie there, and
/// leaves the pixels at all other positions as they were.
pub proof fn lemma_bitmap_pixel(canvas: Pixels, x: int, y: int, src: Pixels, px: int, py: int)
    requires
        canvas.wf(),
        canvas.holds(px, py),
    ensures
        canvas.with_bitmap(x, y, src).get(px, py) == if src.holds(px - x, py - y) {
            canvas.get(px, py) | src.get(px - x, py - y)
        } else {
            canvas.get(px, py)
        },
{
    lemma_position_in_data(canvas.width as int, canvas.height as int, px, py);
    lemma_index_of_position(canvas.width as int, px, py);
}

/// The coordinate `v` moved into `0..=limit`.
pub open spec fn clamped(v: int, limit: int) -> int {
    if v < 0 {
        0
    } else if v > limit {
        limit
    } else {
        v
    }
}

/// The positions `start..end` of an extent of `limit` pixels that a span of
/// `len` pixels starting at `offset` covers.
fn clipped_span(offset: i32, len: usize, limit: usize) -> (r: (usize, usize))
    ensures
        r.0 == clamped(offset as int, limit as int),
        r.1 == clamped(offset + len, limit as int),
{
    if offset >= 0 {
        let start: usize = offset as usize;
        if start >= limit {
            (limit, limit)
        } else {
            let room: usize = limit - start;
            let end: usize = if len < room {
                start + len
            } else {
                limit
            };
            (start, end)
        }
    } else {
        let hidden: usize = (-(offset as i64)) as usize;
        if len <= hidden {
            (0, 0)
        } else {
            let shown: usize = len - hidden;
            let end: usize = if shown < limit {
                shown
            } else {
                limit
            };
            (0, end)
        }
    }
}

impl Bitmap {
    /// The buffer holds a pixel for every position.
    pub open spec fn wf(&self) -> bool {
        self@.wf()
    }

    /// Whether the bitmap is well-formed.
    pub fn is_valid(&self) -> (r: bool)
        ensures
            r == self.wf(),
    {
        assert(self.buffer.len() <= usize::MAX);
        match self.width.checked_mul(self.height) {
            Some(area) => area <= self.buffer.len(),
            None => false,
        }
    }

    /// A bitmap of the given size with every pixel zero.
    pub fn new(width: usize, height: usize) -> (r: Self)
        requires
            width * height <= usize::MAX,
        ensures
            r.wf(),
            r.width == width,
            r.height == height,
            r.buffer@ == Seq::new((width * height) as nat, |i: int| 0u8),
    {
        let r = Bitmap { width, height, buffer: vec![0u8; width * height] };
        assert(r.buffer@ =~= Seq::new((width * height) as nat, |i: int| 0u8));
        r
    }

    /// A bitmap of the given width over a copy of `bytes`. Its height is the
    /// number of complete rows that `bytes` holds.
    pub fn from_raw_bytes(bytes: &[u8], width: usize) -> (r: Self)
        requires
            width > 0,
        ensures
            r.wf(),
            r.width == width,
            r.height == bytes@.len() / (width as nat),
            r.buffer@ == bytes@,
    {
        let height = bytes.len() / width;
        proof {
            lemma_fundamental_div_mod(bytes@.len() as int, width as int);
        }
        Bitmap { width, height, buffer: slice_to_vec(bytes) }
    }

    /// Sets every pixel to zero.
    pub fn clear(&mut self)
        ensures
            final(self)@ == old(self)@.cleared(),
    {
        let n = self.buffer.len();
        let mut i: usize = 0;
        while i < n
            invariant
                i <= n,
                self.buffer@.len() == n,
                self.width == old(self).width,
                self.height == old(self).height,
                forall|j: int| 0 <= j < i ==> self.buffer@[j] == 0u8,
            decreases n - i,
        {
            self.buffer[i] = 0;
            i += 1;
        }
        assert(self@.data =~= old(self)@.cleared().data);
    }

    /// Fills the rectangle of the given size at `(x, y)` with the highest
    /// intensity. What lies outside the bitmap is clipped.
    pub fn draw_rect(&mut self, x: i32, y: i32, width: usize, height: usize)
        requires
            old(self).wf(),
        ensures
            final(self)@ == old(self)@.with_rect(x as int, y as int, width as int, height as int),
    {
        let (x_start, x_end) = clipped_span(x, width, self.width);
        let (y_start, y_end) = clipped_span(y, height, self.height);
        let ghost before = self@;
        let ghost w = self.width as int;
        let ghost h = self.height as int;
        let mut py = y_start;
        while py < y_end
            invariant
                y_start <= py <= y_end <= h,
                x_start == clamped(x as int, w),
                x_end == clamped(x + width, w),
                y_start == clamped(y as int, h),
                y_end == clamped(y + height, h),
                w == self.width == before.width,
                h == self.height == before.height,
                before.wf(),
                self.buffer@.len() == before.data.len(),
                forall|i: int|
                    0 <= i < before.data.len() ==> self.buffer@[i] == (if i < w * h
                        && Pixels::in_rect(
                        column_of(i, w),
                        row_of(i, w),
                        x as int,
                        y as int,
                        width as int,
                        height as int,
                    ) && row_of(i, w) < py {
                        FULL
                    } else {
                        before.data[i]
                    }),
            decreases y_end - py,
        {
            let mut px = x_start;
            while px < x_end
                invariant
                    y_start <= py < y_end <= h,
                    x_start <= px <= x_end <= w,
                    x_start == clamped(x as int, w),
                    x_end == clamped(x + width, w),
                    y_start == clamped(y as int, h),
                    y_end == clamped(y + height, h),
                    w == self.width == before.width,
                    h == self.height == before.height,
                    before.wf(),
                    self.buffer@.len() == before.data.len(),
                    forall|i: int|
                        0 <= i < before.data.len() ==> self.buffer@[i] == (if i < w * h
                            && Pixels::in_rect(
                            column_of(i, w),
                            row_of(i, w),
                            x as int,
                            y as int,
                            width as int,
                            height as int,
                        ) && (row_of(i, w) < py || (row_of(i, w) == py && column_of(i, w) < px)) {
                            FULL
                        } else {
                            before.data[i]
                        }),
                decreases x_end - px,
            {
                proof {
                    lemma_position_in_data(w, h, px as int, py as int);
                    lemma_index_of_position(w, px as int, py as int);
                    assert(self.buffer.len() <= usize::MAX);
                }
                let idx = py * self.width + px;
                self.buffer[idx] = FULL;
                proof {
                    assert forall|i: int| 0 <= i < before.data.len() implies self.buffer@[i] == (
                    if i < w * h && Pixels::in_rect(
                        column_of(i, w),
                        row_of(i, w),
                        x as int,
                        y as int,
                        width as int,
                        height as int,
                    ) && (row_of(i, w) < py || (row_of(i, w) == py && column_of(i, w) < px + 1)) {
                        FULL
                    } else {
                        before.data[i]
                    }) by {
                        lemma_position_of_index(w, i);
                    }
                }
                px += 1;
            }
            proof {
                assert forall|i: int| 0 <= i < before.data.len() implies self.buffer@[i] == (if i
                    < w * h && Pixels::in_rect(
                    column_of(i, w),
                    row_of(i, w),
                    x as int,
                    y as int,
                    width as int,
                    height as int,
                ) && row_of(i, w) < py + 1 {
                    FULL
                } else {
                    before.data[i]
                }) by {
                    if 0 < w {
                        lemma_position_of_index(w, i);
                    }
                }
            }
            py += 1;
        }
        proof {
            assert forall|i: int| 0 <= i < before.data.len() implies self.buffer@[i]
                == before.with_rect(x as int, y as int, width as int, height as int).data[i] by {
                if 0 < w && i < w * h {
                    lemma_row_in_bounds(w, h, i);
                }
            }
            assert(self@.data =~= before.with_rect(
                x as int,
                y as int,
                width as int,
                height as int,
            ).data);
        }
    }

    /// As [`Bitmap::draw_rect`], but skips every position whose row and
    /// column leave the same remainder when divided by `slit_interval`, which
    /// gives a dashed fill.
    pub fn draw_rect_with_slits(
        &mut self,
        x: i32,
        y: i32,
        width: usize,
        height: usize,
        slit_interval: usize,
    )
        requires
            old(self).wf(),
            slit_interval > 0,
        ensures
            final(self)@ == old(self)@.with_slit_rect(
                x as int,
                y as int,
                width as int,
                height as int,
                slit_interval as int,
            ),
    {
        let (x_start, x_end) = clipped_span(x, width, self.width);
        let (y_start, y_end) = clipped_span(y, height, self.height);
        let ghost before = self@;
        let ghost w = self.width as int;
        let ghost h = self.height as int;
        let mut py = y_start;
        while py < y_end
            invariant
                y_start <= py <= y_end <= h,
                x_start == clamped(x as int, w),
                x_end == clamped(x + width, w),
                y_start == clamped(y as int, h),
                y_end == clamped(y + height, h),
                slit_interval > 0,
                w == self.width == before.width,
                h == self.height == before.height,
                before.wf(),
                self.buffer@.len() == before.data.len(),
                forall|i: int|
                    0 <= i < before.data.len() ==> self.buffer@[i] == (if i < w * h
                        && Pixels::in_rect(
                        column_of(i, w),
                        row_of(i, w),
                        x as int,
                        y as int,
                        width as int,
                        height as int,
                    ) && !Pixels::on_slit(column_of(i, w), row_of(i, w), slit_interval as int)
                        && row_of(i, w) < py {
                        FULL
                    } else {
                        before.data[i]
                    }),
            decreases y_end - py,
        {
            let mut px = x_start;
            while px < x_end
                invariant
                    y_start <= py < y_end <= h,
                    x_start <= px <= x_end <= w,
                    x_start == clamped(x as int, w),
                    x_end == clamped(x + width, w),
                    y_start == clamped(y as int, h),
                    y_end == clamped(y + height, h),
                    slit_interval > 0,
                w == self.width == before.width,
                    h == self.height == before.height,
                    before.wf(),
                    self.buffer@.len() == before.data.len(),
                    forall|i: int|
                        0 <= i < before.data.len() ==> self.buffer@[i] == (if i < w * h
                            && Pixels::in_rect(
                            column_of(i, w),
                            row_of(i, w),
                            x as int,
                            y as int,
                            width as int,
                            height as int,
                        ) && !Pixels::on_slit(column_of(i, w), row_of(i, w), slit_interval as int)
                            && (row_of(i, w) < py || (row_of(i, w) == py && column_of(i, w) < px)) {
                            FULL
                        } else {
                            before.data[i]
                        }),
                decreases x_end - px,
            {
                proof {
                    lemma_position_in_data(w, h, px as int, py as int);
                    lemma_index_of_position(w, px as int, py as int);
                    assert(self.buffer.len() <= usize::MAX);
                }
                if py % slit_interval != px % slit_interval {
                    let idx = py * self.width + px;
                    self.buffer[idx] = FULL;
                }
                proof {
                    assert forall|i: int| 0 <= i < before.data.len() implies self.buffer@[i] == (
                    if i < w * h && Pixels::in_rect(
                        column_of(i, w),
                        row_of(i, w),
                        x as int,
                        y as int,
                        width as int,
                        height as int,
                    ) && !Pixels::on_slit(column_of(i, w), row_of(i, w), slit_interval as int)
                        && (row_of(i, w) < py || (row_of(i, w) == py && column_of(i, w) < px + 1)) {
                        FULL
                    } else {
                        before.data[i]
                    }) by {
                        lemma_position_of_index(w, i);
                    }
                }
                px += 1;
            }
            proof {
                assert forall|i: int| 0 <= i < before.data.len() implies self.buffer@[i] == (if i
                    < w * h && Pixels::in_rect(
                    column_of(i, w),
                    row_of(i, w),
                    x as int,
                    y as int,
                    width as int,
                    height as int,
                ) && !Pixels::on_slit(column_of(i, w), row_of(i, w), slit_interval as int)
                    && row_of(i, w) < py + 1 {
                    FULL
                } else {
                    before.data[i]
                }) by {
                    if 0 < w {
                        lemma_position_of_index(w, i);
                    }
                }
            }
            py += 1;
        }
        proof {
            assert forall|i: int| 0 <= i < before.data.len() implies self.buffer@[i]
                == before.with_slit_rect(
                x as int,
                y as int,
                width as int,
                height as int,
                slit_interval as int,
            ).data[i] by {
                if 0 < w && i < w * h {
                    lemma_row_in_bounds(w, h, i);
                }
            }
            assert(self@.data =~= before.with_slit_rect(
                x as int,
                y as int,
                width as int,
                height as int,
                slit_interval as int,
            ).data);
        }
    }

    /// OR-composites `bitmap` onto this one with its top-left corner at
    /// `(x, y)`. What lies outside this bitmap is clipped.
    pub fn draw_bitmap(&mut self, x: i32, y: i32, bitmap: &Bitmap)
        requires
            old(self).wf(),
            bitmap.wf(),
        ensures
            final(self)@ == old(self)@.with_bitmap(x as int, y as int, bitmap@),
    {
        let (x_start, x_end) = clipped_span(x, bitmap.width, self.width);
        let (y_start, y_end) = clipped_span(y, bitmap.height, self.height);
        let ghost before = self@;
        let ghost src = bitmap@;
        let ghost w = self.width as int;
        let ghost h = self.height as int;
        let mut py = y_start;
        while py < y_end
            invariant
                y_start <= py <= y_end <= h,
                x_start == clamped(x as int, w),
                x_end == clamped(x + bitmap.width, w),
                y_start == clamped(y as int, h),
                y_end == clamped(y + bitmap.height, h),
                w == self.width == before.width,
                h == self.height == before.height,
                before.wf(),
                src == bitmap@,
                src.wf(),
                self.buffer@.len() == before.data.len(),
                forall|i: int|
                    0 <= i < before.data.len() ==> self.buffer@[i] == (if i < w * h && src.holds(
                        column_of(i, w) - x,
                        row_of(i, w) - y,
                    ) && row_of(i, w) < py {
                        before.data[i] | src.get(column_of(i, w) - x, row_of(i, w) - y)
                    } else {
                        before.data[i]
                    }),
            decreases y_end - py,
        {
            let sy: usize = if y >= 0 {
                py - y as usize
            } else {
                py + (-(y as i64)) as usize
            };
            let mut px = x_start;
            while px < x_end
                invariant
                    y_start <= py < y_end <= h,
                    x_start <= px <= x_end <= w,
                    x_start == clamped(x as int, w),
                    x_end == clamped(x + bitmap.width, w),
                    y_start == clamped(y as int, h),
                    y_end == clamped(y + bitmap.height, h),
                    sy == py - y,
                    w == self.width == before.width,
                    h == self.height == before.height,
                    before.wf(),
                    src == bitmap@,
                    src.wf(),
                    self.buffer@.len() == before.data.len(),
                    forall|i: int|
                        0 <= i < before.data.len() ==> self.buffer@[i] == (if i < w * h
                            && src.holds(column_of(i, w) - x, row_of(i, w) - y) && (row_of(i, w)
                            < py || (row_of(i, w) == py && column_of(i, w) < px)) {
                            before.data[i] | src.get(column_of(i, w) - x, row_of(i, w) - y)
                        } else {
                            before.data[i]
                        }),
                decreases x_end - px,
            {
                let sx: usize = if x >= 0 {
                    px - x as usize
                } else {
                    px + (-(x as i64)) as usize
                };
                proof {
                    lemma_position_in_data(w, h, px as int, py as int);
                    lemma_index_of_position(w, px as int, py as int);
                    lemma_position_in_data(
                        src.width as int,
                        src.height as int,
                        sx as int,
                        sy as int,
                    );
                    assert(self.buffer.len() <= usize::MAX);
                    assert(bitmap.buffer.len() <= usize::MAX);
                }
                let idx = py * self.width + px;
                let value = self.buffer[idx] | bitmap.buffer[sy * bitmap.width + sx];
                self.buffer[idx] = value;
                proof {
                    assert forall|i: int| 0 <= i < before.data.len() implies self.buffer@[i] == (
                    if i < w * h && src.holds(column_of(i, w) - x, row_of(i, w) - y) && (row_of(
                        i,
                        w,
                    ) < py || (row_of(i, w) == py && column_of(i, w) < px + 1)) {
                        before.data[i] | src.get(column_of(i, w) - x, row_of(i, w) - y)
                    } else {
                        before.data[i]
                    }) by {
                        lemma_position_of_index(w, i);
                    }
                }
                px += 1;
            }
            proof {
                assert forall|i: int| 0 <= i < before.data.len() implies self.buffer@[i] == (if i
                    < w * h && src.holds(column_of(i, w) - x, row_of(i, w) - y) && row_of(i, w)
                    < py + 1 {
                    before.data[i] | src.get(column_of(i, w) - x, row_of(i, w) - y)
                } else {
                    before.data[i]
                }) by {
                    if 0 < w {
                        lemma_position_of_index(w, i);
                    }
                }
            }
            py += 1;
        }
        proof {
            assert forall|i: int| 0 <= i < before.data.len() implies self.buffer@[i]
                == before.with_bitmap(x as int, y as int, src).data[i] by {
                if 0 < w && i < w * h {
                    lemma_row_in_bounds(w, h, i);
                }
            }
            assert(self@.data =~= before.with_bitmap(x as int, y as int, src).data);
        }
    }
}

} // verus!
