use vstd::prelude::*;
use super::bitmap::{Bitmap, Pixels};
use crate::components::layout::MAX_EXTENT;

verus! {

/// The number of advance units in a pixel.
pub const SUBPIXELS: u32 = 64;

/// The largest width and height of a glyph image, and the largest distance
/// of its lower edge from the baseline.
pub const MAX_GLYPH_EXTENT: usize = 0xffff;

/// The largest advance of a glyph, in advance units.
pub const MAX_ADVANCE: u32 = 0x3f_ffff;

/// A character as its font draws it at one size: the coverage image and
/// where it stands relative to the pen.
pub struct Glyph {
    /// The coverage, one byte per pixel.
    pub image: Bitmap,
    /// The height of the lower edge of the image above the baseline;
    /// negative where the glyph descends below it.
    pub ymin: i32,
    /// How far the pen moves on, in 64ths of a pixel.
    pub advance: u32,
}

impl Glyph {
    /// The image is well-formed and all measures are within their limits.
    pub open spec fn wf(&self) -> bool {
        &&& self.image.wf()
        &&& self.image.width <= MAX_GLYPH_EXTENT
        &&& self.image.height <= MAX_GLYPH_EXTENT
        &&& -(MAX_GLYPH_EXTENT as int) <= self.ymin <= MAX_GLYPH_EXTENT
        &&& self.advance <= MAX_ADVANCE
    }

    /// How far the top of the glyph reaches above the baseline.
    pub open spec fn rise(&self) -> int {
        self.image.height + self.ymin
    }

    /// How far the glyph reaches below the baseline.
    pub open spec fn drop(&self) -> int {
        -self.ymin
    }

    /// Whether the glyph is well-formed.
    pub fn is_valid(&self) -> (r: bool)
        ensures
            r == self.wf(),
    {
        assert(self.image.buffer.len() <= usize::MAX);
        let area = self.image.width.checked_mul(self.image.height);
        let holds = match area {
            Some(a) => a <= self.image.buffer.len(),
            None => false,
        };
        holds && self.image.width <= MAX_GLYPH_EXTENT && self.image.height <= MAX_GLYPH_EXTENT
            && -65535 <= self.ymin && self.ymin <= 65535 && self.advance <= MAX_ADVANCE
    }
}

/// A typeface at one size: the glyph of every character it knows, and the
/// glyph that stands for the others.
pub struct Font {
    chars: Vec<char>,
    glyphs: Vec<Glyph>,
    fallback: Glyph,
}

/// The index of the first occurrence of `c` among the first `n` of `chars`,
/// or `n` if there is none.
pub open spec fn first_index(chars: Seq<char>, c: char, n: int) -> int
    decreases n,
{
    if n <= 0 {
        0
    } else if first_index(chars, c, n - 1) < n - 1 {
        first_index(chars, c, n - 1)
    } else if chars[n - 1] == c {
        n - 1
    } else {
        n
    }
}

pub proof fn lemma_first_index(chars: Seq<char>, c: char, n: int)
    requires
        0 <= n <= chars.len(),
    ensures
        0 <= first_index(chars, c, n) <= n,
        first_index(chars, c, n) < n ==> chars[first_index(chars, c, n)] == c,
        forall|j: int| 0 <= j < first_index(chars, c, n) ==> chars[j] != c,
    decreases n,
{
    if n > 0 {
        lemma_first_index(chars, c, n - 1);
    }
}

impl Font {
    /// Every glyph is well-formed, and every character has one.
    pub closed spec fn wf(&self) -> bool {
        &&& self.chars@.len() == self.glyphs@.len()
        &&& self.fallback.wf()
        &&& forall|i: int| 0 <= i < self.glyphs@.len() ==> (#[trigger] self.glyphs@[i]).wf()
    }

    /// The glyph that the font draws for `c`.
    pub closed spec fn glyph_of(&self, c: char) -> Glyph {
        let i = first_index(self.chars@, c, self.chars@.len() as int);
        if i < self.chars@.len() {
            self.glyphs@[i]
        } else {
            self.fallback
        }
    }

    /// The glyphs that the font draws for the characters of `text`.
    pub open spec fn glyphs_of(&self, text: Seq<char>) -> Seq<Glyph> {
        Seq::new(text.len(), |i: int| self.glyph_of(text[i]))
    }

    /// Every glyph of a well-formed font is well-formed.
    pub proof fn lemma_glyphs_wf(&self, text: Seq<char>)
        requires
            self.wf(),
        ensures
            all_wf(self.glyphs_of(text)),
    {
        assert forall|i: int| 0 <= i < text.len() implies (#[trigger] self.glyphs_of(
            text,
        )[i]).wf() by {
            lemma_first_index(self.chars@, text[i], self.chars@.len() as int);
        }
    }

    /// A font that draws every character as `fallback`.
    pub fn new(fallback: Glyph) -> (r: Self)
        requires
            fallback.wf(),
        ensures
            r.wf(),
            forall|c: char| #[trigger] r.glyph_of(c) == fallback,
    {
        Font { chars: Vec::new(), glyphs: Vec::new(), fallback }
    }

    /// Makes the font draw `c` as `glyph`. The glyphs of the other
    /// characters stay.
    pub fn insert(&mut self, c: char, glyph: Glyph)
        requires
            old(self).wf(),
            glyph.wf(),
        ensures
            final(self).wf(),
            final(self).glyph_of(c) == glyph,
            forall|d: char| d != c ==> #[trigger] final(self).glyph_of(d) == old(self).glyph_of(d),
    {
        let i = self.find(c);
        let ghost before = *self;
        if i < self.chars.len() {
            self.glyphs[i] = glyph;
            proof {
                lemma_first_index(self.chars@, c, self.chars@.len() as int);
                assert forall|d: char| d != c implies #[trigger] self.glyph_of(d)
                    == before.glyph_of(d) by {
                    lemma_first_index(self.chars@, d, self.chars@.len() as int);
                }
            }
        } else {
            self.chars.push(c);
            self.glyphs.push(glyph);
            proof {
                let n = before.chars@.len() as int;
                assert forall|d: char| first_index(self.chars@, d, n) == first_index(
                    before.chars@,
                    d,
                    n,
                ) by {
                    lemma_first_index_prefix(before.chars@, self.chars@, d, n);
                }
                assert(first_index(self.chars@, c, n + 1) == n);
                assert forall|d: char| d != c implies #[trigger] self.glyph_of(d)
                    == before.glyph_of(d) by {
                    lemma_first_index(before.chars@, d, n);
                    assert(first_index(self.chars@, d, n) == first_index(before.chars@, d, n));
                }
            }
        }
    }

    /// The index of the first occurrence of `c` among the known characters,
    /// or their number if it is not among them.
    fn find(&self, c: char) -> (i: usize)
        ensures
            i == first_index(self.chars@, c, self.chars@.len() as int),
            i <= self.chars@.len(),
    {
        let mut i: usize = 0;
        while i < self.chars.len()
            invariant
                i <= self.chars@.len(),
                first_index(self.chars@, c, i as int) == i,
            decreases self.chars@.len() - i,
        {
            if self.chars[i] == c {
                proof {
                    lemma_first_index_found(self.chars@, c, i + 1, self.chars@.len() as int);
                }
                return i;
            }
            i += 1;
        }
        i
    }

    /// The glyph that the font draws for `c`.
    pub fn glyph(&self, c: char) -> (r: &Glyph)
        requires
            self.wf(),
        ensures
            *r == self.glyph_of(c),
            r.wf(),
    {
        let i = self.find(c);
        if i < self.chars.len() {
            &self.glyphs[i]
        } else {
            &self.fallback
        }
    }
}

/// The first occurrence among the first `n` characters does not depend on
/// what follows them.
pub proof fn lemma_first_index_prefix(a: Seq<char>, b: Seq<char>, c: char, n: int)
    requires
        0 <= n <= a.len(),
        n <= b.len(),
        forall|j: int| 0 <= j < n ==> a[j] == b[j],
    ensures
        first_index(a, c, n) == first_index(b, c, n),
    decreases n,
{
    if n > 0 {
        lemma_first_index_prefix(a, b, c, n - 1);
    }
}

/// An occurrence that was found among the first `n` characters is the one
/// found among the first `m >= n`.
pub proof fn lemma_first_index_found(chars: Seq<char>, c: char, n: int, m: int)
    requires
        0 <= n <= m <= chars.len(),
        first_index(chars, c, n) < n,
    ensures
        first_index(chars, c, m) == first_index(chars, c, n),
    decreases m - n,
{
    if n < m {
        lemma_first_index_found(chars, c, n, m - 1);
    }
}

/// Whether every glyph of the sequence is well-formed.
pub open spec fn all_wf(glyphs: Seq<Glyph>) -> bool {
    forall|i: int| 0 <= i < glyphs.len() ==> (#[trigger] glyphs[i]).wf()
}

/// The sum of the advances of the first `n` glyphs, in advance units.
pub open spec fn advance_sum(glyphs: Seq<Glyph>, n: int) -> int
    decreases n,
{
    if n <= 0 {
        0
    } else {
        advance_sum(glyphs, n - 1) + glyphs[n - 1].advance
    }
}

/// The height above the baseline that the first `n` glyphs reach.
pub open spec fn ascent(glyphs: Seq<Glyph>, n: int) -> int
    decreases n,
{
    if n <= 0 {
        0
    } else if ascent(glyphs, n - 1) >= glyphs[n - 1].rise() {
        ascent(glyphs, n - 1)
    } else {
        glyphs[n - 1].rise()
    }
}

/// The depth below the baseline that the first `n` glyphs reach.
pub open spec fn descent(glyphs: Seq<Glyph>, n: int) -> int
    decreases n,
{
    if n <= 0 {
        0
    } else if descent(glyphs, n - 1) >= glyphs[n - 1].drop() {
        descent(glyphs, n - 1)
    } else {
        glyphs[n - 1].drop()
    }
}

/// The sums and extremes of well-formed glyphs are within limits.
pub proof fn lemma_measures_bounded(glyphs: Seq<Glyph>, n: int)
    requires
        all_wf(glyphs),
        0 <= n <= glyphs.len(),
    ensures
        0 <= advance_sum(glyphs, n) <= n * MAX_ADVANCE,
        0 <= ascent(glyphs, n) <= 2 * MAX_GLYPH_EXTENT,
        0 <= descent(glyphs, n) <= MAX_GLYPH_EXTENT,
    decreases n,
{
    if n > 0 {
        lemma_measures_bounded(glyphs, n - 1);
        assert(glyphs[n - 1].wf());
        assert(n * MAX_ADVANCE == (n - 1) * MAX_ADVANCE + MAX_ADVANCE) by (nonlinear_arith);
    }
}

/// Describes the size of a string of text in some font.
#[derive(Clone, Copy, Debug, PartialEq, Eq, Structural)]
pub struct TextMetrics {
    pub width: usize,
    pub height: usize,
    /// The distance from the top of the text to the baseline.
    pub base_height: usize,
}

/// The width in whole pixels of text whose advances sum up to `advance`
/// units; no more than the largest size there is.
pub open spec fn pixel_width(advance: int) -> int {
    if advance / (SUBPIXELS as int) <= usize::MAX {
        advance / (SUBPIXELS as int)
    } else {
        usize::MAX as int
    }
}

/// The size of the text that the given glyphs make up: as wide as the
/// advances add up to, and as high as it takes to hold the highest rise and
/// the deepest drop around a shared baseline.
pub open spec fn measured(glyphs: Seq<Glyph>) -> TextMetrics {
    let n = glyphs.len() as int;
    TextMetrics {
        width: pixel_width(advance_sum(glyphs, n)) as usize,
        height: (ascent(glyphs, n) + descent(glyphs, n)) as usize,
        base_height: ascent(glyphs, n) as usize,
    }
}

/// The characters of `text`.
pub fn chars_of(text: &str) -> (v: Vec<char>)
    ensures
        v@ == text@,
{
    let mut v: Vec<char> = Vec::new();
    for c in it: text.chars()
        invariant
            v@ == it.seq().subrange(0, it.index() as int),
            it.seq() == text@,
    {
        v.push(c);
    }
    v
}

/// Measures the size of some text without rendering it. The metrics
/// returned describe the size the text would have if rendered.
pub fn measure_text(text: &str, font: &Font) -> (r: TextMetrics)
    requires
        font.wf(),
    ensures
        r == measured(font.glyphs_of(text@)),
        r.height <= 3 * MAX_GLYPH_EXTENT,
        r.base_height <= r.height,
{
    let chars = chars_of(text);
    let ghost glyphs = font.glyphs_of(text@);
    proof {
        font.lemma_glyphs_wf(text@);
    }
    let mut x: u128 = 0;
    let mut rise: i32 = 0;
    let mut drop: i32 = 0;
    let mut i: usize = 0;
    while i < chars.len()
        invariant
            i <= chars@.len(),
            chars@ == text@,
            font.wf(),
            glyphs == font.glyphs_of(text@),
            all_wf(glyphs),
            x == advance_sum(glyphs, i as int),
            rise == ascent(glyphs, i as int),
            drop == descent(glyphs, i as int),
        decreases chars@.len() - i,
    {
        let glyph = font.glyph(chars[i]);
        proof {
            lemma_measures_bounded(glyphs, i as int);
            lemma_measures_bounded(glyphs, i + 1);
            assert(*glyph == glyphs[i as int]);
            assert(i * MAX_ADVANCE <= usize::MAX * MAX_ADVANCE) by (nonlinear_arith)
                requires
                    i <= usize::MAX,
            ;
        }
        let top: i32 = glyph.image.height as i32 + glyph.ymin;
        if top > rise {
            rise = top;
        }
        if -glyph.ymin > drop {
            drop = -glyph.ymin;
        }
        x = x + glyph.advance as u128;
        i += 1;
    }
    proof {
        lemma_measures_bounded(glyphs, i as int);
    }
    let whole: u128 = x / (SUBPIXELS as u128);
    let width: usize = if whole <= usize::MAX as u128 {
        whole as usize
    } else {
        usize::MAX
    };
    TextMetrics { width, height: (rise + drop) as usize, base_height: rise as usize }
}

/// `p` divided by 128, rounded toward zero.
pub open spec fn toward_zero_128(p: int) -> int {
    if p >= 0 {
        p / 128
    } else {
        -((-p) / 128)
    }
}

/// The column at which a glyph is drawn when the pen stands `pen` advance
/// units right of where the text begins, which is `origin` 128ths of a
/// pixel from the left: the glyph is centred within its advance, the
/// position is rounded toward zero and kept within the range of a
/// coordinate.
pub open spec fn glyph_left(origin: int, pen: int, glyph: Glyph) -> int {
    let column = toward_zero_128(
        origin + 2 * pen + glyph.advance - SUBPIXELS * glyph.image.width,
    );
    if column > i32::MAX {
        i32::MAX as int
    } else if column < i32::MIN {
        i32::MIN as int
    } else {
        column
    }
}

/// The row at which a glyph is drawn when the baseline lies `baseline` rows
/// below the top.
pub open spec fn glyph_top(baseline: int, glyph: Glyph) -> int {
    baseline - glyph.image.height - glyph.ymin
}

/// `canvas` with the first `n` glyphs drawn onto it, one after the other
/// from `origin` 128ths of a pixel from the left on, around a baseline
/// `baseline` rows below the top.
pub open spec fn with_glyphs(
    canvas: Pixels,
    glyphs: Seq<Glyph>,
    origin: int,
    baseline: int,
    n: int,
) -> Pixels
    decreases n,
{
    if n <= 0 {
        canvas
    } else {
        with_glyphs(canvas, glyphs, origin, baseline, n - 1).with_bitmap(
            glyph_left(origin, advance_sum(glyphs, n - 1), glyphs[n - 1]),
            glyph_top(baseline, glyphs[n - 1]),
            glyphs[n - 1].image@,
        )
    }
}

/// A bitmap of the given size with every pixel zero.
pub open spec fn blank(width: int, height: int) -> Pixels {
    Pixels {
        width: width as nat,
        height: height as nat,
        data: Seq::new((width * height) as nat, |i: int| 0u8),
    }
}

/// Whether the image of the text that the glyphs make up has a number of
/// pixels that can be counted.
pub open spec fn renderable(glyphs: Seq<Glyph>) -> bool {
    measured(glyphs).width * measured(glyphs).height <= usize::MAX
}

/// The image of the text that the glyphs make up: as large as the text
/// measures, each glyph drawn at the pen's position on the shared baseline.
pub open spec fn text_image(glyphs: Seq<Glyph>) -> Pixels {
    with_glyphs(
        blank(measured(glyphs).width as int, measured(glyphs).height as int),
        glyphs,
        0,
        measured(glyphs).base_height as int,
        glyphs.len() as int,
    )
}

/// The largest distance of a baseline from the top of a canvas.
pub const MAX_BASELINE: i32 = 0x3fff_ffff;

/// The largest distance of the beginning of a text from the left of a
/// canvas, in 128ths of a pixel.
pub const MAX_ORIGIN: i128 = 0x1_0000_0000_0000_0000_0000;

/// Draws the glyphs of `chars` onto `canvas`.
pub fn draw_glyphs(
    canvas: &mut Bitmap,
    chars: &Vec<char>,
    font: &Font,
    origin: i128,
    baseline: i32,
)
    requires
        old(canvas).wf(),
        font.wf(),
        -MAX_BASELINE <= baseline <= MAX_BASELINE,
        -MAX_ORIGIN <= origin <= MAX_ORIGIN,
    ensures
        final(canvas).wf(),
        final(canvas)@ == with_glyphs(
            old(canvas)@,
            font.glyphs_of(chars@),
            origin as int,
            baseline as int,
            chars@.len() as int,
        ),
{
    let ghost glyphs = font.glyphs_of(chars@);
    let ghost before = canvas@;
    proof {
        font.lemma_glyphs_wf(chars@);
    }
    let mut pen: u128 = 0;
    let mut i: usize = 0;
    while i < chars.len()
        invariant
            i <= chars@.len(),
            font.wf(),
            glyphs == font.glyphs_of(chars@),
            all_wf(glyphs),
            -MAX_BASELINE <= baseline <= MAX_BASELINE,
            -MAX_ORIGIN <= origin <= MAX_ORIGIN,
            pen == advance_sum(glyphs, i as int),
            canvas.wf(),
            canvas@ == with_glyphs(before, glyphs, origin as int, baseline as int, i as int),
        decreases chars@.len() - i,
    {
        let glyph = font.glyph(chars[i]);
        proof {
            lemma_measures_bounded(glyphs, i as int);
            lemma_measures_bounded(glyphs, i + 1);
            assert(*glyph == glyphs[i as int]);
            assert(i * MAX_ADVANCE <= usize::MAX * MAX_ADVANCE) by (nonlinear_arith)
                requires
                    i <= usize::MAX,
            ;
        }
        let doubled: i128 = origin + 2 * (pen as i128) + glyph.advance as i128 - (
        SUBPIXELS as i128) * (glyph.image.width as i128);
        let column: i128 = if doubled >= 0 {
            doubled / 128
        } else {
            -((-doubled) / 128)
        };
        let left: i32 = if column > i32::MAX as i128 {
            i32::MAX
        } else if column < i32::MIN as i128 {
            i32::MIN
        } else {
            column as i32
        };
        let top: i32 = baseline - glyph.image.height as i32 - glyph.ymin;
        canvas.draw_bitmap(left, top, &glyph.image);
        pen = pen + glyph.advance as u128;
        i += 1;
    }
}

impl Bitmap {
    /// The image of `text` in `font`, if its pixels can be counted.
    pub fn try_from_text(text: &str, font: &Font) -> (r: Option<Bitmap>)
        requires
            font.wf(),
        ensures
            r is Some <==> renderable(font.glyphs_of(text@)),
            r matches Some(bitmap) ==> bitmap.wf() && bitmap@ == text_image(
                font.glyphs_of(text@),
            ),
    {
        let metrics = measure_text(text, font);
        match metrics.width.checked_mul(metrics.height) {
            Some(_) => Some(Bitmap::from_text(text, font)),
            None => None,
        }
    }

    /// The image of `text` in `font`. Its pixels must be no more than can be
    /// counted.
    pub fn from_text(text: &str, font: &Font) -> (r: Bitmap)
        requires
            font.wf(),
            renderable(font.glyphs_of(text@)),
        ensures
            r.wf(),
            r@ == text_image(font.glyphs_of(text@)),
    {
        let metrics = measure_text(text, font);
        let chars = chars_of(text);
        proof {
            font.lemma_glyphs_wf(text@);
            lemma_measures_bounded(font.glyphs_of(text@), text@.len() as int);
        }
        let mut bitmap = Bitmap::new(metrics.width, metrics.height);
        assert(bitmap@ == blank(metrics.width as int, metrics.height as int));
        draw_glyphs(&mut bitmap, &chars, font, 0, metrics.base_height as i32);
        bitmap
    }
}

/// Drawing glyphs onto a canvas keeps its size and its well-formedness.
pub proof fn lemma_with_glyphs_size(
    canvas: Pixels,
    glyphs: Seq<Glyph>,
    origin: int,
    baseline: int,
    n: int,
)
    ensures
        with_glyphs(canvas, glyphs, origin, baseline, n).width == canvas.width,
        with_glyphs(canvas, glyphs, origin, baseline, n).height == canvas.height,
        with_glyphs(canvas, glyphs, origin, baseline, n).data.len() == canvas.data.len(),
    decreases n,
{
    if n > 0 {
        lemma_with_glyphs_size(canvas, glyphs, origin, baseline, n - 1);
    }
}

/// Whether the image of the text that the glyphs make up can be shown by a
/// widget: its pixels can be counted and it is no wider than the widest
/// bounds into which widgets are laid out.
pub open spec fn showable(glyphs: Seq<Glyph>) -> bool {
    renderable(glyphs) && measured(glyphs).width <= MAX_EXTENT
}

/// What a widget shows for `text` in `font`: the image of the text or, if
/// that cannot be shown, nothing.
pub open spec fn text_picture(font: Font, text: Seq<char>) -> Pixels {
    if showable(font.glyphs_of(text)) {
        text_image(font.glyphs_of(text))
    } else {
        blank(0, 0)
    }
}

/// Computes [`text_picture`].
pub fn picture_of(text: &str, font: &Font) -> (r: Bitmap)
    requires
        font.wf(),
    ensures
        r.wf(),
        r@ == text_picture(*font, text@),
        r.width <= MAX_EXTENT,
        r.height <= 3 * MAX_GLYPH_EXTENT,
{
    let metrics = measure_text(text, font);
    proof {
        let glyphs = font.glyphs_of(text@);
        lemma_with_glyphs_size(
            blank(measured(glyphs).width as int, measured(glyphs).height as int),
            glyphs,
            0,
            measured(glyphs).base_height as int,
            glyphs.len() as int,
        );
    }
    if metrics.width <= MAX_EXTENT as usize && metrics.width.checked_mul(
        metrics.height,
    ).is_some() {
        Bitmap::from_text(text, font)
    } else {
        Bitmap::new(0, 0)
    }
}

} // verus!
