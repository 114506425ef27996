use vstd::prelude::*;
use super::layout::{centered, Bounds, Size};
use crate::rendering::bitmap::{Bitmap, Pixels};
use crate::time::TimeSpan;

verus! {

/// Something that advances with time and draws itself onto a canvas.
pub trait Drawable: Sized {
    /// Whether the state is one that the widget's own operations produce.
    spec fn wf(&self) -> bool;

    /// Whether the widget can be drawn into `bounds` of `canvas`: no
    /// coordinate computed on the way leaves the range of its type.
    spec fn fits(&self, canvas: Pixels, bounds: Bounds) -> bool;

    /// Whether drawing onto `canvas` into `bounds`, `elapsed` after the
    /// frame before, can leave the state `next` and the canvas `result`.
    /// For a drawable that takes nothing from outside there is one such
    /// state and one such canvas.
    spec fn draws(
        &self,
        next: &Self,
        canvas: Pixels,
        result: Pixels,
        bounds: Bounds,
        elapsed: TimeSpan,
    ) -> bool;

    /// Computes [`Drawable::fits`].
    fn can_draw(&self, canvas: &Bitmap, bounds: Bounds) -> (r: bool)
        requires
            self.wf(),
        ensures
            r == self.fits(canvas@, bounds),
    ;

    /// Progresses the drawable by the given time and draws it to the given
    /// bitmap.
    fn draw(&mut self, canvas: &mut Bitmap, bounds: Bounds, elapsed: &TimeSpan)
        requires
            old(self).wf(),
            old(canvas).wf(),
            old(self).fits(old(canvas)@, bounds),
        ensures
            final(self).wf(),
            final(canvas).wf(),
            final(canvas)@.width == old(canvas)@.width,
            final(canvas)@.height == old(canvas)@.height,
            final(canvas)@.data.len() == old(canvas)@.data.len(),
            old(self).draws(final(self), old(canvas)@, final(canvas)@, bounds, *elapsed),
    ;
}

/// A drawable with a size of its own. A dimension that the parent is to
/// assign has the unit type.
pub trait Widget<W, H>: Drawable {
    /// The size that [`Widget::size`] returns.
    spec fn extent(&self) -> Size<W, H>;

    /// The size of the widget.
    fn size(&self) -> (r: Size<W, H>)
        requires
            self.wf(),
        ensures
            r == self.extent(),
    ;
}

/// `canvas` with `image` drawn onto it in the center of `bounds`.
pub open spec fn with_centered(canvas: Pixels, bounds: Bounds, image: Pixels) -> Pixels {
    canvas.with_bitmap(
        centered(bounds.pos.x as int, bounds.size.width as int, image.width as int),
        centered(bounds.pos.y as int, bounds.size.height as int, image.height as int),
        image,
    )
}

/// Shows a fixed image.
pub struct BitmapWidget {
    bitmap: Bitmap,
}

impl BitmapWidget {
    /// The image shown.
    pub closed spec fn image(&self) -> Pixels {
        self.bitmap@
    }

    /// The canvas after the image was drawn onto it with its top-left corner
    /// at that of `bounds`.
    pub open spec fn painted(&self, canvas: Pixels, bounds: Bounds) -> Pixels {
        canvas.with_bitmap(bounds.pos.x as int, bounds.pos.y as int, self.image())
    }

    /// A widget that shows `bitmap`, whose dimensions must be within the
    /// range of a size.
    pub fn new(bitmap: Bitmap) -> (r: Self)
        requires
            bitmap.wf(),
            bitmap.width <= u32::MAX,
            bitmap.height <= u32::MAX,
        ensures
            r.wf(),
            r.image() == bitmap@,
    {
        BitmapWidget { bitmap }
    }
}

impl BitmapWidget {
    /// The bitmap shown.
    pub fn bitmap(&self) -> (r: &Bitmap)
        ensures
            r@ == self.image(),
    {
        &self.bitmap
    }
}

impl Drawable for BitmapWidget {
    open spec fn wf(&self) -> bool {
        &&& self.image().wf()
        &&& self.image().width <= u32::MAX
        &&& self.image().height <= u32::MAX
    }

    open spec fn fits(&self, canvas: Pixels, bounds: Bounds) -> bool {
        true
    }

    open spec fn draws(
        &self,
        next: &Self,
        canvas: Pixels,
        result: Pixels,
        bounds: Bounds,
        elapsed: TimeSpan,
    ) -> bool {
        &&& *next == *self
        &&& result == self.painted(canvas, bounds)
    }

    fn can_draw(&self, canvas: &Bitmap, bounds: Bounds) -> (r: bool) {
        true
    }

    /// Blits the image with its top-left corner at that of `bounds`.
    fn draw(&mut self, canvas: &mut Bitmap, bounds: Bounds, elapsed: &TimeSpan) {
        canvas.draw_bitmap(bounds.pos.x, bounds.pos.y, &self.bitmap);
    }
}

impl Widget<u32, u32> for BitmapWidget {
    open spec fn extent(&self) -> Size<u32, u32> {
        Size { width: self.image().width as u32, height: self.image().height as u32 }
    }

    /// The image's pixel dimensions.
    fn size(&self) -> (r: Size<u32, u32>) {
        Size { width: self.bitmap.width as u32, height: self.bitmap.height as u32 }
    }
}

} // verus!
