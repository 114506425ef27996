use vstd::prelude::*;
use crate::rendering::binary_bitmap::BinaryBitmap;

verus! {

/// The error of an input or output operation of the standard library,
/// `std::io::Error`. Nothing is known of what it holds.
#[verifier::external_type_specification]
#[verifier::external_body]
pub struct ExIoError(std::io::Error);

/// Something we can output canvases to. Typically this would be a
/// microcontroller connected via USB or wifi.
pub trait RenderTarget {
    fn render_bitmap(&mut self, bitmap: BinaryBitmap) -> Result<(), std::io::Error>;
}

/// The first byte of a datagram that carries a frame.
pub const FRAME_MARKER: u8 = 10;

/// What is known of a display that takes its frames as datagrams: its
/// address and the frame it shows.
pub struct UdpOutput<'a> {
    pub address: &'a str,
    pub previous: BinaryBitmap,
}

/// The datagram that carries a frame: the marker, then the bytes of the
/// frame.
pub open spec fn datagram_of(frame: Seq<u8>) -> Seq<u8> {
    seq![FRAME_MARKER] + frame
}

impl<'a> UdpOutput<'a> {
    /// The datagram to send so that the display shows `bitmap`, or nothing
    /// if it shows those pixels already.
    pub fn datagram_for(&self, bitmap: &BinaryBitmap) -> (r: Option<Vec<u8>>)
        ensures
            r is None <==> bitmap.buffer@ == self.previous.buffer@,
            r matches Some(datagram) ==> datagram@ == datagram_of(bitmap.buffer@),
    {
        let same = bitmap.buffer == self.previous.buffer;
        proof {
            if same {
                assert(bitmap.buffer@ =~= self.previous.buffer@);
            }
        }
        if same {
            return None;
        }
        let mut buf: Vec<u8> = Vec::new();
        buf.push(FRAME_MARKER);
        let mut i: usize = 0;
        while i < bitmap.buffer.len()
            invariant
                i <= bitmap.buffer@.len(),
                buf@ == seq![FRAME_MARKER] + bitmap.buffer@.subrange(0, i as int),
            decreases bitmap.buffer@.len() - i,
        {
            buf.push(bitmap.buffer[i]);
            i += 1;
        }
        assert(bitmap.buffer@.subrange(0, i as int) == bitmap.buffer@);
        Some(buf)
    }

    /// Records that the display now shows `bitmap`.
    pub fn sent(&mut self, bitmap: BinaryBitmap)
        ensures
            final(self).previous == bitmap,
            final(self).address == old(self).address,
    {
        self.previous = bitmap;
    }
}

} // verus!
