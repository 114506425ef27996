//! Pixel buffers and the primitive drawing operations on them.

pub mod binary_bitmap;
pub mod bitmap;
pub mod canvas;
pub mod decode;
pub mod text;
pub mod video;

pub use binary_bitmap::BinaryBitmap;
pub use bitmap::{Bitmap, Pixels};
pub use canvas::{Canvas, HorizontalAlignment, VerticalAlignment};
pub use decode::ColorImage;
pub use text::{measure_text, picture_of, Font, Glyph, TextMetrics};
pub use video::Video;
