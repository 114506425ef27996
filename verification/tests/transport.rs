use oculed::input::decode_command;
use oculed::output::UdpOutput;
use oculed::rendering::decode::luma_of;
use oculed::rendering::{BinaryBitmap, Bitmap, ColorImage, Video};
use oculed::UserInput;

#[test]
fn commands_are_two_bytes_behind_a_marker() {
    assert_eq!(decode_command(&[0x33, 0]), Some(UserInput::NextScreen));
    assert_eq!(decode_command(&[0x33, 1]), Some(UserInput::PrevScreen));
    assert_eq!(decode_command(&[0x33, 2]), Some(UserInput::ScreensaverOn));
    assert_eq!(decode_command(&[0x33, 3]), Some(UserInput::ScreensaverOff));
    assert_eq!(decode_command(&[0x33, 4]), Some(UserInput::Quit));
}

#[test]
fn other_datagrams_carry_no_command() {
    assert_eq!(decode_command(&[0x33, 5]), None);
    assert_eq!(decode_command(&[0x33, 255]), None);
    assert_eq!(decode_command(&[0x32, 0]), None);
    assert_eq!(decode_command(&[0x33]), None);
    assert_eq!(decode_command(&[]), None);
    assert_eq!(decode_command(&[0x33, 0, 0]), None);
    assert_eq!(decode_command(&[0, 0x33]), None);
}

fn packed(bytes: &[u8]) -> BinaryBitmap {
    BinaryBitmap { width: 8, height: bytes.len(), buffer: bytes.to_vec() }
}

#[test]
fn a_changed_frame_is_sent_behind_a_marker() {
    let mut output = UdpOutput { address: "192.168.1.6:4435", previous: packed(&[]) };
    let frame = packed(&[1, 2, 3]);
    assert_eq!(output.datagram_for(&frame), Some(vec![10, 1, 2, 3]));
    output.sent(frame);
    assert_eq!(output.previous.buffer, vec![1, 2, 3]);
    assert_eq!(output.address, "192.168.1.6:4435");
    assert_eq!(output.datagram_for(&packed(&[1, 2, 3])), None);
    assert_eq!(output.datagram_for(&packed(&[1, 2, 4])), Some(vec![10, 1, 2, 4]));
    assert_eq!(output.datagram_for(&packed(&[1, 2])), Some(vec![10, 1, 2]));
    // Only the pixels count.
    let other_size = BinaryBitmap { width: 24, height: 1, buffer: vec![1, 2, 3] };
    assert_eq!(output.datagram_for(&other_size), None);
}

#[test]
fn a_canvas_is_packed_and_framed() {
    let mut canvas = Bitmap::new(8, 2);
    canvas.draw_rect(1, 0, 2, 2);
    let output = UdpOutput { address: "", previous: packed(&[0, 0]) };
    let datagram = output.datagram_for(&BinaryBitmap::from(&canvas));
    assert_eq!(datagram, Some(vec![10, 0b0110_0000, 0b0110_0000]));
}

fn png(width: u32, height: u32, pixels: &[u8], color: image::ColorType) -> Vec<u8> {
    let mut bytes = Vec::new();
    let encoder = image::codecs::png::PngEncoder::new(&mut bytes);
    image::ImageEncoder::write_image(encoder, pixels, width, height, color).unwrap();
    bytes
}

#[test]
fn a_gray_png_decodes_to_its_pixels() {
    let bytes = png(3, 2, &[0, 10, 20, 30, 40, 255], image::ColorType::L8);
    let bitmap = Bitmap::try_from_png(&bytes).unwrap();
    assert_eq!(bitmap.width, 3);
    assert_eq!(bitmap.height, 2);
    assert_eq!(bitmap.buffer, vec![0, 10, 20, 30, 40, 255]);
    let again = Bitmap::from_png(&bytes);
    assert_eq!(again.buffer, bitmap.buffer);
}

#[test]
fn a_coloured_png_decodes_to_gray() {
    let bytes = png(
        2,
        2,
        &[255, 255, 255, 0, 0, 0, 255, 0, 0, 0, 0, 255],
        image::ColorType::Rgb8,
    );
    let bitmap = Bitmap::try_from_png(&bytes).unwrap();
    assert_eq!(bitmap.width, 2);
    assert_eq!(bitmap.height, 2);
    // White, black, red and blue.
    assert_eq!(bitmap.buffer, vec![255, 0, 54, 18]);
}

#[test]
fn bytes_that_are_no_image_decode_to_nothing() {
    assert!(Bitmap::try_from_png(&[]).is_none());
    assert!(Bitmap::try_from_png(b"not a png at all").is_none());
    let mut bytes = png(3, 2, &[0, 10, 20, 30, 40, 255], image::ColorType::L8);
    bytes.truncate(bytes.len() - 20);
    assert!(Bitmap::try_from_png(&bytes).is_none());
}

fn color(width: u32, height: u32, pixel: [u8; 4]) -> ColorImage {
    let mut data = Vec::new();
    for _ in 0..width * height {
        data.extend_from_slice(&pixel);
    }
    ColorImage { width, height, data }
}

#[test]
fn coloured_images_become_gray_frames() {
    let images = vec![
        color(2, 1, [255, 255, 255, 255]),
        color(2, 1, [0, 0, 0, 255]),
        color(2, 1, [0, 255, 0, 0]),
    ];
    let mut video = Video::from_images(&images).unwrap();
    assert_eq!(video.frame_count(), 3);
    assert_eq!(video.frame_index(), 0);
    assert_eq!(video.current_frame().width, 2);
    assert_eq!(video.current_frame().height, 1);
    assert_eq!(video.current_frame().buffer, vec![255, 255]);
    video.advance();
    assert_eq!(video.current_frame().buffer, vec![0, 0]);
    video.advance();
    // Green counts 7152 of 10000; the alpha does not count.
    assert_eq!(video.current_frame().buffer, vec![182, 182]);
    assert_eq!(video.frame(1).buffer, vec![0, 0]);
    let frame = images[0].to_frame().unwrap();
    assert_eq!(frame.buffer, vec![255, 255]);
}

#[test]
fn images_that_cannot_be_frames_make_no_video() {
    assert!(Video::from_images(&vec![]).is_none());
    let short = ColorImage { width: 2, height: 2, data: vec![0; 15] };
    assert!(short.to_frame().is_none());
    assert!(Video::from_images(&vec![color(1, 1, [0; 4]), short]).is_none());
    let flat = ColorImage { width: 0, height: 3, data: vec![] };
    assert!(flat.to_frame().is_none());
    assert!(Video::from_images(&vec![flat]).is_none());
    let long = ColorImage { width: 1, height: 1, data: vec![9; 8] };
    assert_eq!(long.to_frame().unwrap().buffer, vec![9]);
}

#[test]
fn the_brightness_is_a_weighted_mean_rounded_down() {
    assert_eq!(luma_of(0, 0, 0), 0);
    assert_eq!(luma_of(255, 255, 255), 255);
    assert_eq!(luma_of(255, 0, 0), 54);
    assert_eq!(luma_of(0, 255, 0), 182);
    assert_eq!(luma_of(0, 0, 255), 18);
    assert_eq!(luma_of(10, 20, 30), 18);
    assert_eq!(luma_of(1, 1, 1), 1);
    assert_eq!(luma_of(4, 0, 0), 0);
    assert_eq!(luma_of(5, 0, 0), 1);
}

#[test]
fn colour_images_are_checked_and_turned_gray() {
    let image = ColorImage { width: 2, height: 1, data: vec![255, 0, 0, 7, 0, 0, 255, 9] };
    assert!(image.is_valid());
    assert_eq!(image.grayscale().buffer, vec![54, 18]);
    assert!(!ColorImage { width: 2, height: 1, data: vec![0; 7] }.is_valid());
    assert!(ColorImage { width: 0, height: 5, data: vec![] }.is_valid());
    let flat = ColorImage { width: 0, height: 5, data: vec![] }.grayscale();
    assert_eq!(flat.width, 0);
    assert_eq!(flat.height, 5);
    assert_eq!(flat.buffer.len(), 0);
    assert!(!ColorImage { width: u32::MAX, height: u32::MAX, data: vec![] }.is_valid());
}
