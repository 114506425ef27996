use vstd::prelude::*;
use super::bitmap::{Bitmap, Pixels};
use super::text::{
    chars_of,
    draw_glyphs,
    measure_text,
    measured,
    with_glyphs,
    Font,
    TextMetrics,
    MAX_BASELINE,
};

verus! {

/// A bitmap, but we can also draw text to it.
pub struct Canvas {
    pub bitmap: Bitmap,
    pub font: Font,
}

/// Specifies how to interpret the x coordinate of a text draw call.
#[derive(Clone, Copy, Debug, PartialEq, Eq, Structural)]
pub enum HorizontalAlignment {
    /// The x coordinate is where the leftmost pixels should be drawn
    Left,
    /// The x coordinate is where the rightmost pixels should be drawn
    Right,
    /// The x coordinate is the middle point between the leftmost and the
    /// rightmost pixels
    Center,
}

/// Specifies how to interpret the y coordinate of a text draw call.
#[derive(Clone, Copy, Debug, PartialEq, Eq, Structural)]
pub enum VerticalAlignment {
    /// The y coordinate is where the baseline should be drawn
    Baseline,
    /// The y coordinate is the middle point between the baseline and the
    /// topmost pixel
    CenterBase,
    /// The y coordinate is where the topmost pixel should be drawn
    Top,
    /// The y coordinate is where the bottommost pixel should be drawn
    Bottom,
}

/// Where a text of the given width begins that is aligned at column `x`,
/// in 128ths of a pixel from the left.
pub open spec fn text_origin(x: int, width: int, alignment: HorizontalAlignment) -> int {
    match alignment {
        HorizontalAlignment::Left => 128 * x,
        HorizontalAlignment::Center => 128 * x - 64 * width,
        HorizontalAlignment::Right => 128 * (x - width),
    }
}

/// The row of the baseline of a text of the given metrics that is aligned
/// at row `y`.
pub open spec fn text_baseline(y: int, metrics: TextMetrics, alignment: VerticalAlignment) -> int {
    match alignment {
        VerticalAlignment::Baseline => y,
        VerticalAlignment::CenterBase => y + metrics.base_height / 2,
        VerticalAlignment::Top => y + metrics.base_height,
        VerticalAlignment::Bottom => y - (metrics.height - metrics.base_height),
    }
}

impl Canvas {
    /// The bitmap and the font are well-formed.
    pub open spec fn wf(&self) -> bool {
        self.bitmap.wf() && self.font.wf()
    }

    /// The bitmap after `text` was drawn onto it, aligned at `(x, y)`.
    pub open spec fn with_text(
        &self,
        x: int,
        y: int,
        text: Seq<char>,
        hor_alignment: HorizontalAlignment,
        ver_alignment: VerticalAlignment,
    ) -> Pixels {
        let glyphs = self.font.glyphs_of(text);
        with_glyphs(
            self.bitmap@,
            glyphs,
            text_origin(x, measured(glyphs).width as int, hor_alignment),
            text_baseline(y, measured(glyphs), ver_alignment),
            glyphs.len() as int,
        )
    }

    /// A black canvas of the given size that writes in `font`.
    pub fn new(width: usize, height: usize, font: Font) -> (r: Self)
        requires
            width * height <= usize::MAX,
            font.wf(),
        ensures
            r.wf(),
            r.bitmap.width == width,
            r.bitmap.height == height,
            r.bitmap.buffer@ == Seq::new((width * height) as nat, |i: int| 0u8),
            r.font == font,
    {
        Canvas { bitmap: Bitmap::new(width, height), font }
    }

    /// Sets every pixel to zero.
    pub fn clear(&mut self)
        ensures
            final(self).bitmap@ == old(self).bitmap@.cleared(),
            final(self).font == old(self).font,
    {
        self.bitmap.clear();
    }

    /// Replaces the font.
    pub fn set_font(&mut self, font: Font)
        ensures
            final(self).font == font,
            final(self).bitmap == old(self).bitmap,
    {
        self.font = font;
    }

    /// The font.
    pub fn get_font(&self) -> (r: &Font)
        ensures
            *r == self.font,
    {
        &self.font
    }

    /// Draws the given text at the given position. The baseline must come
    /// to lie within the largest distance from the top.
    pub fn draw_text(
        &mut self,
        x: i32,
        y: i32,
        text: &str,
        hor_alignment: HorizontalAlignment,
        ver_alignment: VerticalAlignment,
    )
        requires
            old(self).wf(),
            -MAX_BASELINE <= text_baseline(
                y as int,
                measured(old(self).font.glyphs_of(text@)),
                ver_alignment,
            ) <= MAX_BASELINE,
        ensures
            final(self).wf(),
            final(self).font == old(self).font,
            final(self).bitmap@ == old(self).with_text(
                x as int,
                y as int,
                text@,
                hor_alignment,
                ver_alignment,
            ),
    {
        let text_metrics = measure_text(text, &self.font);
        let width: i128 = text_metrics.width as i128;
        let origin: i128 = match hor_alignment {
            HorizontalAlignment::Left => 128 * (x as i128),
            HorizontalAlignment::Center => 128 * (x as i128) - 64 * width,
            HorizontalAlignment::Right => 128 * (x as i128 - width),
        };
        let baseline: i64 = match ver_alignment {
            VerticalAlignment::Baseline => y as i64,
            VerticalAlignment::CenterBase => y as i64 + (text_metrics.base_height / 2) as i64,
            VerticalAlignment::Top => y as i64 + text_metrics.base_height as i64,
            VerticalAlignment::Bottom => y as i64 - (text_metrics.height as i64
                - text_metrics.base_height as i64),
        };
        let chars = chars_of(text);
        draw_glyphs(&mut self.bitmap, &chars, &self.font, origin, baseline as i32);
    }

    /// Measures the size of some text without rendering it. The metrics
    /// returned describe the size the text would have if rendered.
    pub fn measure_text(&self, text: &str) -> (r: TextMetrics)
        requires
            self.font.wf(),
        ensures
            r == measured(self.font.glyphs_of(text@)),
    {
        measure_text(text, &self.font)
    }
}

} // verus!
