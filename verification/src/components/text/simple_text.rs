use vstd::prelude::*;
use super::text_widget::TextWidget;
use crate::components::layout::{Bounds, Size, MAX_EXTENT};
use crate::components::widget::{Drawable, Widget};
use crate::rendering::bitmap::{Bitmap, Pixels};
use crate::rendering::text::{picture_of, text_picture, Font, MAX_GLYPH_EXTENT};
use crate::time::TimeSpan;

verus! {

/// A static string of text anchored in its top-left corner and taking up
/// just enough space to fit its contents.
pub struct SimpleTextWidget<'a> {
    text: String,
    rendered_text: Bitmap,
    font: &'a Font,
}

impl<'a> SimpleTextWidget<'a> {
    /// The text shown.
    pub closed spec fn content(&self) -> Seq<char> {
        self.text@
    }

    /// The font in which the text is shown.
    pub closed spec fn typeface(&self) -> Font {
        *self.font
    }

    /// The image of the text.
    pub closed spec fn image(&self) -> Pixels {
        self.rendered_text@
    }

    /// The canvas after the text was drawn onto it with its top-left corner
    /// at that of `bounds`.
    pub open spec fn painted(&self, canvas: Pixels, bounds: Bounds) -> Pixels {
        canvas.with_bitmap(bounds.pos.x as int, bounds.pos.y as int, self.image())
    }

    /// The size of the widget is that of the image of its text, which is
    /// within limits.
    pub proof fn lemma_height(&self)
        requires
            self.wf(),
        ensures
            self.extent().height == self.image().height,
            self.extent().width == self.image().width,
            self.extent().height <= 3 * MAX_GLYPH_EXTENT,
            self.extent().width <= MAX_EXTENT,
    {
    }

    /// A widget that shows `text` in `font`.
    pub fn new(text: String, font: &'a Font) -> (r: Self)
        requires
            font.wf(),
        ensures
            r.wf(),
            r.content() == text@,
            r.typeface() == *font,
    {
        let rendered_text = picture_of(text.as_str(), font);
        SimpleTextWidget { text, rendered_text, font }
    }
}

impl<'a> SimpleTextWidget<'a> {
    /// The text shown.
    pub fn text(&self) -> (r: &str)
        ensures
            r@ == self.content(),
    {
        self.text.as_str()
    }

    /// The image of the text.
    pub fn rendered(&self) -> (r: &Bitmap)
        ensures
            r@ == self.image(),
    {
        &self.rendered_text
    }
}

impl<'a> TextWidget<u32, u32> for SimpleTextWidget<'a> {
    open spec fn text(&self) -> Seq<char> {
        self.content()
    }

    open spec fn shows(&self, next: &Self, text: Seq<char>) -> bool {
        next.typeface() == self.typeface()
    }

    /// Replaces the text and renders it anew, unless it is the text already
    /// shown.
    fn set_text(&mut self, text: &str) -> (changed: bool) {
        let wanted = text.to_owned();
        if self.text != wanted {
            self.rendered_text = picture_of(text, self.font);
            self.text = wanted;
            return true;
        }
        false
    }
}

impl<'a> Drawable for SimpleTextWidget<'a> {
    open spec fn wf(&self) -> bool {
        &&& self.typeface().wf()
        &&& self.image() == text_picture(self.typeface(), self.content())
        &&& self.image().wf()
        &&& self.image().width <= MAX_EXTENT
        &&& self.image().height <= 3 * MAX_GLYPH_EXTENT
    }

    open spec fn fits(&self, canvas: Pixels, bounds: Bounds) -> bool {
        true
    }

    open spec fn draws(
        &self,
        next: &Self,
        canvas: Pixels,
        result: Pixels,
        bounds: Bounds,
        elapsed: TimeSpan,
    ) -> bool {
        &&& *next == *self
        &&& result == self.painted(canvas, bounds)
    }

    fn can_draw(&self, canvas: &Bitmap, bounds: Bounds) -> (r: bool) {
        true
    }

    /// Blits the image of the text with its top-left corner at that of
    /// `bounds`.
    fn draw(&mut self, canvas: &mut Bitmap, bounds: Bounds, elapsed: &TimeSpan) {
        canvas.draw_bitmap(bounds.pos.x, bounds.pos.y, &self.rendered_text);
    }
}

impl<'a> Widget<u32, u32> for SimpleTextWidget<'a> {
    open spec fn extent(&self) -> Size<u32, u32> {
        Size { width: self.image().width as u32, height: self.image().height as u32 }
    }

    /// The size of the image of the text: as wide as the advances of its
    /// glyphs add up to, as high as its highest and its deepest glyph
    /// reach around the shared baseline.
    fn size(&self) -> (r: Size<u32, u32>) {
        Size { width: self.rendered_text.width as u32, height: self.rendered_text.height as u32 }
    }
}

} // verus!
