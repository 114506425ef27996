use vstd::prelude::*;
use super::bitmap::Bitmap;

verus! {

/// A bitmap with one bit per pixel, eight pixels to a byte, the leftmost
/// pixel in the highest bit.
#[derive(Clone)]
pub struct BinaryBitmap {
    pub width: usize,
    pub height: usize,
    pub buffer: Vec<u8>,
}

/// The intensity above which a pixel counts as lit.
pub const THRESHOLD: u8 = 0x7f;

/// One if the pixel is lit, zero if not.
pub open spec fn lit(pixel: u8) -> int {
    if pixel > THRESHOLD {
        1
    } else {
        0
    }
}

/// The byte that packs the eight pixels from index `8 * i` on.
pub open spec fn packed_byte(pixels: Seq<u8>, i: int) -> int {
    128 * lit(pixels[8 * i]) + 64 * lit(pixels[8 * i + 1]) + 32 * lit(pixels[8 * i + 2]) + 16
        * lit(pixels[8 * i + 3]) + 8 * lit(pixels[8 * i + 4]) + 4 * lit(pixels[8 * i + 5]) + 2
        * lit(pixels[8 * i + 6]) + lit(pixels[8 * i + 7])
}

/// The first `count` of the eight pixels from index `8 * i` on, packed from
/// the highest bit down.
pub open spec fn packed_prefix(pixels: Seq<u8>, i: int, count: int) -> int
    decreases count,
{
    if count <= 0 {
        0
    } else {
        packed_prefix(pixels, i, count - 1) + lit(pixels[8 * i + count - 1]) * weight(count - 1)
    }
}

/// The value of the bit that holds pixel `bit` of a byte.
pub open spec fn weight(bit: int) -> int {
    if bit == 0 {
        128
    } else if bit == 1 {
        64
    } else if bit == 2 {
        32
    } else if bit == 3 {
        16
    } else if bit == 4 {
        8
    } else if bit == 5 {
        4
    } else if bit == 6 {
        2
    } else {
        1
    }
}

proof fn lemma_packed_prefix_full(pixels: Seq<u8>, i: int)
    ensures
        packed_prefix(pixels, i, 8) == packed_byte(pixels, i),
{
    reveal_with_fuel(packed_prefix, 9);
}

proof fn lemma_set_bit(byte: u8, bit: u8)
    by (bit_vector)
    requires
        bit < 8,
        byte & (0xffu8 >> bit) == 0,
    ensures
        (byte | (1u8 << (7 - bit) as u8)) & (0xffu8 >> (bit + 1) as u8) == 0,
        (byte | (1u8 << (7 - bit) as u8)) == byte + (1u8 << (7 - bit) as u8),
        byte & (0xffu8 >> (bit + 1) as u8) == 0,
        bit == 0 ==> (1u8 << (7 - bit) as u8) == 128,
        bit == 1 ==> (1u8 << (7 - bit) as u8) == 64,
        bit == 2 ==> (1u8 << (7 - bit) as u8) == 32,
        bit == 3 ==> (1u8 << (7 - bit) as u8) == 16,
        bit == 4 ==> (1u8 << (7 - bit) as u8) == 8,
        bit == 5 ==> (1u8 << (7 - bit) as u8) == 4,
        bit == 6 ==> (1u8 << (7 - bit) as u8) == 2,
        bit == 7 ==> (1u8 << (7 - bit) as u8) == 1,
{
}

impl BinaryBitmap {
    /// Packs `bitmap` into one bit per pixel: a bit is set where the pixel
    /// is brighter than [`THRESHOLD`]. The number of bytes of `bitmap` must
    /// be a multiple of eight.
    pub fn from(bitmap: &Bitmap) -> (r: Self)
        requires
            bitmap.wf(),
            bitmap.buffer@.len() % 8 == 0,
        ensures
            r.width == bitmap.width,
            r.height == bitmap.height,
            r.buffer@.len() == (bitmap.width * bitmap.height) / 8,
            forall|i: int|
                0 <= i < r.buffer@.len() ==> r.buffer@[i] == #[trigger] packed_byte(
                    bitmap.buffer@,
                    i,
                ),
    {
        assert(bitmap.buffer.len() <= usize::MAX);
        let total: usize = bitmap.width * bitmap.height;
        let count: usize = total / 8;
        let mut buffer: Vec<u8> = Vec::new();
        let mut i: usize = 0;
        while i < count
            invariant
                i <= count,
                count == total / 8,
                total <= bitmap.buffer@.len(),
                buffer@.len() == i,
                forall|j: int|
                    0 <= j < i ==> buffer@[j] == #[trigger] packed_byte(bitmap.buffer@, j),
            decreases count - i,
        {
            let mut byte: u8 = 0;
            let mut bit: u8 = 0;
            assert(0u8 & (0xffu8 >> 0u8) == 0) by (bit_vector);
            while bit < 8
                invariant
                    bit <= 8,
                    i < count,
                    count == total / 8,
                    total <= bitmap.buffer@.len(),
                    byte == packed_prefix(bitmap.buffer@, i as int, bit as int),
                    bit < 8 ==> byte & (0xffu8 >> bit) == 0,
                decreases 8 - bit,
            {
                proof {
                    lemma_set_bit(byte, bit);
                }
                if bitmap.buffer[8 * i + bit as usize] > THRESHOLD {
                    byte |= 1u8 << (7 - bit);
                }
                bit += 1;
            }
            proof {
                lemma_packed_prefix_full(bitmap.buffer@, i as int);
            }
            buffer.push(byte);
            i += 1;
        }
        BinaryBitmap { width: bitmap.width, height: bitmap.height, buffer }
    }
}

} // verus!
