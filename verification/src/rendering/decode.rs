use vstd::prelude::*;
use super::bitmap::{Bitmap, Pixels};
use super::video::Video;

verus! {

/// An image in colour: four bytes to the pixel, red, green, blue and
/// alpha, row by row.
pub struct ColorImage {
    pub width: u32,
    pub height: u32,
    pub data: Vec<u8>,
}

/// The image that the `image` crate decodes from the bytes of an image
/// file: its width, its height and its pixels, four bytes each, row by row.
/// There is none where the bytes cannot be decoded.
pub uninterp spec fn decoded_image(bytes: Seq<u8>) -> Option<(u32, u32, Seq<u8>)>;

/// Decodes the bytes of an image file with `image::io::Reader`, which
/// guesses the format from the first bytes, and hands the image out as
/// pixels of red, green, blue and alpha. The result is [`decoded_image`] of
/// the bytes.
#[verifier::external_body]
fn decode_rgba(bytes: &[u8]) -> (r: Option<ColorImage>)
    ensures
        r is Some <==> decoded_image(bytes@) is Some,
        r matches Some(image) ==> decoded_image(bytes@) == Some(
            (image.width, image.height, image.data@),
        ),
{
    let reader = image::io::Reader::new(std::io::Cursor::new(bytes));
    let image = reader.with_guessed_format().ok()?.decode().ok()?.into_rgba8();
    Some(ColorImage { width: image.width(), height: image.height(), data: image.into_raw() })
}

/// The brightness of a colour: the weighted mean of red, green and blue,
/// in which red counts 2126, green 7152 and blue 722 of 10000, rounded
/// down.
pub open spec fn luma(red: u8, green: u8, blue: u8) -> u8 {
    ((2126 * red + 7152 * green + 722 * blue) / 10000) as u8
}

/// Computes [`luma`].
pub fn luma_of(red: u8, green: u8, blue: u8) -> (r: u8)
    ensures
        r == luma(red, green, blue),
{
    let sum: u32 = 2126 * (red as u32) + 7152 * (green as u32) + 722 * (blue as u32);
    (sum / 10000) as u8
}

/// Whether `data` holds four bytes for every pixel of an image of the
/// given size.
pub open spec fn holds_image(width: u32, height: u32, data: Seq<u8>) -> bool {
    4 * (width * height) <= data.len()
}

/// The pixels of an image of the given size in grayscale: the brightness of
/// each of its pixels; the alpha is discarded.
pub open spec fn gray_of(width: u32, height: u32, data: Seq<u8>) -> Pixels {
    Pixels {
        width: width as nat,
        height: height as nat,
        data: Seq::new(
            (width * height) as nat,
            |i: int| luma(data[4 * i], data[4 * i + 1], data[4 * i + 2]),
        ),
    }
}

impl ColorImage {
    /// The data holds four bytes for every pixel.
    pub open spec fn wf(&self) -> bool {
        holds_image(self.width, self.height, self.data@)
    }

    /// Whether the image is well-formed.
    pub fn is_valid(&self) -> (r: bool)
        ensures
            r == self.wf(),
    {
        assert(self.width * self.height <= 0xffff_ffff * 0xffff_ffff) by (nonlinear_arith)
            requires
                self.width <= 0xffff_ffff,
                self.height <= 0xffff_ffff,
        ;
        let area: u64 = (self.width as u64) * (self.height as u64);
        4 * (area as u128) <= self.data.len() as u128
    }

    /// The image in grayscale.
    pub open spec fn gray(&self) -> Pixels {
        gray_of(self.width, self.height, self.data@)
    }

    /// Whether the image can be a frame of a video: it is well-formed and
    /// has a width.
    pub open spec fn frameable(&self) -> bool {
        self.width > 0 && self.wf()
    }

    /// The image in grayscale.
    pub fn grayscale(&self) -> (r: Bitmap)
        requires
            self.wf(),
        ensures
            r.wf(),
            r@ == self.gray(),
            r.buffer@.len() == self.width * self.height,
    {
        assert(self.data.len() <= usize::MAX);
        assert(self.width * self.height <= 0xffff_ffff * 0xffff_ffff) by (nonlinear_arith)
            requires
                self.width <= 0xffff_ffff,
                self.height <= 0xffff_ffff,
        ;
        let area: usize = ((self.width as u64) * (self.height as u64)) as usize;
        let mut buffer: Vec<u8> = Vec::new();
        let mut i: usize = 0;
        while i < area
            invariant
                i <= area,
                area == self.width * self.height,
                4 * area <= self.data@.len() <= usize::MAX,
                buffer@.len() == i,
                forall|j: int|
                    0 <= j < i ==> buffer@[j] == luma(
                        self.data@[4 * j],
                        self.data@[4 * j + 1],
                        self.data@[4 * j + 2],
                    ),
            decreases area - i,
        {
            buffer.push(luma_of(self.data[4 * i], self.data[4 * i + 1], self.data[4 * i + 2]));
            i += 1;
        }
        let r = Bitmap { width: self.width as usize, height: self.height as usize, buffer };
        assert(r@.data =~= self.gray().data);
        r
    }

    /// The image in grayscale, if it can be a frame of a video.
    pub fn to_frame(&self) -> (r: Option<Bitmap>)
        ensures
            r is Some <==> self.frameable(),
            r matches Some(bitmap) ==> bitmap.wf() && bitmap@ == self.gray(),
    {
        if self.width > 0 && self.is_valid() {
            Some(self.grayscale())
        } else {
            None
        }
    }
}

/// Whether the bytes of an image file decode to an image that has four
/// bytes for every pixel.
pub open spec fn decodable(bytes: Seq<u8>) -> bool {
    decoded_image(bytes) matches Some(image) && holds_image(image.0, image.1, image.2)
}

/// The image that the bytes of an image file decode to, in grayscale.
pub open spec fn decoded_pixels(bytes: Seq<u8>) -> Pixels {
    let image = decoded_image(bytes).unwrap();
    gray_of(image.0, image.1, image.2)
}

impl Bitmap {
    /// Decodes bytes in png format (e.g. read from a png file) into a
    /// bitmap. The bytes must be those of an image.
    pub fn from_png(bytes: &[u8]) -> (r: Self)
        requires
            decodable(bytes@),
        ensures
            r.wf(),
            r@ == decoded_pixels(bytes@),
    {
        let image = decode_rgba(bytes).unwrap();
        image.grayscale()
    }

    /// Decodes bytes in png format (e.g. read from a png file) into a
    /// bitmap, if they are those of an image.
    pub fn try_from_png(bytes: &[u8]) -> (r: Option<Self>)
        ensures
            r is Some <==> decodable(bytes@),
            r matches Some(bitmap) ==> bitmap.wf() && bitmap@ == decoded_pixels(bytes@),
    {
        match decode_rgba(bytes) {
            Some(image) => if image.is_valid() {
                Some(image.grayscale())
            } else {
                None
            },
            None => None,
        }
    }
}

impl Video {
    /// A video whose frames are the given images in grayscale, if there is
    /// an image and every image can be a frame.
    pub fn from_images(images: &Vec<ColorImage>) -> (r: Option<Self>)
        ensures
            r is Some <==> images@.len() > 0 && forall|i: int|
                0 <= i < images@.len() ==> (#[trigger] images@[i]).frameable(),
            r matches Some(video) ==> {
                &&& video.wf()
                &&& video.position() == 0
                &&& video.frames() == Seq::new(images@.len(), |i: int| images@[i].gray())
            },
    {
        if images.len() == 0 {
            return None;
        }
        let mut frames: Vec<Bitmap> = Vec::new();
        let mut i: usize = 0;
        while i < images.len()
            invariant
                i <= images@.len(),
                frames@.len() == i,
                forall|j: int| 0 <= j < i ==> (#[trigger] images@[j]).frameable(),
                forall|j: int|
                    0 <= j < i ==> (#[trigger] frames@[j]).wf() && frames@[j]@
                        == images@[j].gray(),
            decreases images@.len() - i,
        {
            match images[i].to_frame() {
                Some(frame) => {
                    frames.push(frame);
                },
                None => {
                    return None;
                },
            }
            i += 1;
        }
        let video = Video::from_frames(frames);
        assert(video.frames() =~= Seq::new(images@.len(), |i: int| images@[i].gray()));
        Some(video)
    }
}

} // verus!
