use oculed::rendering::{BinaryBitmap, Bitmap};

fn pixel(bitmap: &Bitmap, x: usize, y: usize) -> u8 {
    bitmap.buffer[y * bitmap.width + x]
}

#[test]
fn a_new_bitmap_is_black() {
    let bitmap = Bitmap::new(5, 3);
    assert_eq!(bitmap.width, 5);
    assert_eq!(bitmap.height, 3);
    assert_eq!(bitmap.buffer, vec![0u8; 15]);
    let empty = Bitmap::new(0, 7);
    assert_eq!(empty.buffer.len(), 0);
}

#[test]
fn raw_bytes_keep_their_rows() {
    let bitmap = Bitmap::from_raw_bytes(&[1, 2, 3, 4, 5, 6], 3);
    assert_eq!(bitmap.width, 3);
    assert_eq!(bitmap.height, 2);
    assert_eq!(bitmap.buffer, vec![1, 2, 3, 4, 5, 6]);
    let ragged = Bitmap::from_raw_bytes(&[1, 2, 3, 4, 5, 6, 7], 3);
    assert_eq!(ragged.height, 2);
    assert_eq!(ragged.buffer.len(), 7);
}

#[test]
fn clear_blackens_every_pixel() {
    let mut bitmap = Bitmap::from_raw_bytes(&[9, 8, 7, 6], 2);
    bitmap.clear();
    assert_eq!(bitmap.buffer, vec![0, 0, 0, 0]);
    assert_eq!(bitmap.width, 2);
    assert_eq!(bitmap.height, 2);
}

#[test]
fn draw_rect_fills_with_full_intensity() {
    let mut bitmap = Bitmap::new(4, 3);
    bitmap.draw_rect(1, 1, 2, 1);
    assert_eq!(bitmap.buffer, vec![0, 0, 0, 0, 0, 255, 255, 0, 0, 0, 0, 0]);
}

#[test]
fn draw_rect_is_clipped_on_all_edges() {
    let mut bitmap = Bitmap::new(3, 3);
    bitmap.draw_rect(-2, -2, 3, 3);
    assert_eq!(bitmap.buffer, vec![255, 0, 0, 0, 0, 0, 0, 0, 0]);
    let mut bitmap = Bitmap::new(3, 3);
    bitmap.draw_rect(2, 2, 10, 10);
    assert_eq!(bitmap.buffer, vec![0, 0, 0, 0, 0, 0, 0, 0, 255]);
    let mut bitmap = Bitmap::new(3, 3);
    bitmap.draw_rect(3, 0, 4, 4);
    assert_eq!(bitmap.buffer, vec![0; 9]);
    let mut bitmap = Bitmap::new(3, 3);
    bitmap.draw_rect(-4, 0, 4, 4);
    assert_eq!(bitmap.buffer, vec![0; 9]);
    let mut bitmap = Bitmap::new(3, 3);
    bitmap.draw_rect(i32::MIN, i32::MIN, usize::MAX, usize::MAX);
    assert_eq!(bitmap.buffer, vec![255; 9]);
    let mut bitmap = Bitmap::new(3, 3);
    bitmap.draw_rect(1, 1, 0, 5);
    assert_eq!(bitmap.buffer, vec![0; 9]);
}

#[test]
fn slits_skip_where_row_and_column_leave_the_same_remainder() {
    let mut bitmap = Bitmap::new(4, 4);
    bitmap.draw_rect_with_slits(0, 0, 4, 4, 2);
    assert_eq!(
        bitmap.buffer,
        vec![0, 255, 0, 255, 255, 0, 255, 0, 0, 255, 0, 255, 255, 0, 255, 0]
    );
    let mut bitmap = Bitmap::new(5, 2);
    bitmap.draw_rect_with_slits(1, 0, 4, 2, 4);
    assert_eq!(bitmap.buffer, vec![0, 255, 255, 255, 0, 0, 0, 255, 255, 255]);
    let mut bitmap = Bitmap::new(2, 2);
    bitmap.draw_rect_with_slits(0, 0, 2, 2, 1);
    assert_eq!(bitmap.buffer, vec![0; 4]);
}

#[test]
fn slits_keep_what_was_there() {
    let mut bitmap = Bitmap::from_raw_bytes(&[7, 7, 7, 7], 2);
    bitmap.draw_rect_with_slits(0, 0, 2, 2, 2);
    assert_eq!(bitmap.buffer, vec![7, 255, 255, 7]);
}

#[test]
fn draw_bitmap_ors_the_source_onto_the_target() {
    let mut target = Bitmap::from_raw_bytes(&[0x0f, 0, 0, 0, 0xf0, 0x01], 3);
    let source = Bitmap::from_raw_bytes(&[0xf0, 0x11, 0x0f, 0x02], 2);
    target.draw_bitmap(0, 0, &source);
    assert_eq!(target.buffer, vec![0xff, 0x11, 0, 0x0f, 0xf2, 0x01]);
}

#[test]
fn draw_bitmap_is_clipped_on_all_edges() {
    let source = Bitmap::from_raw_bytes(&[1, 2, 3, 4, 5, 6, 7, 8, 9], 3);
    let mut target = Bitmap::new(2, 2);
    target.draw_bitmap(-1, -1, &source);
    assert_eq!(target.buffer, vec![5, 6, 8, 9]);
    let mut target = Bitmap::new(2, 2);
    target.draw_bitmap(1, 1, &source);
    assert_eq!(target.buffer, vec![0, 0, 0, 1]);
    let mut target = Bitmap::new(2, 2);
    target.draw_bitmap(-2, 0, &source);
    assert_eq!(target.buffer, vec![3, 0, 6, 0]);
    let mut target = Bitmap::new(2, 2);
    target.draw_bitmap(2, 0, &source);
    assert_eq!(target.buffer, vec![0; 4]);
    let mut target = Bitmap::new(2, 2);
    target.draw_bitmap(0, -3, &source);
    assert_eq!(target.buffer, vec![0; 4]);
    let mut target = Bitmap::new(2, 2);
    target.draw_bitmap(i32::MIN, i32::MAX, &source);
    assert_eq!(target.buffer, vec![0; 4]);
}

#[test]
fn draw_bitmap_reaches_the_position_given() {
    let source = Bitmap::from_raw_bytes(&[200], 1);
    let mut target = Bitmap::new(4, 3);
    target.draw_bitmap(3, 1, &source);
    assert_eq!(pixel(&target, 3, 1), 200);
    assert_eq!(target.buffer.iter().filter(|p| **p != 0).count(), 1);
}

#[test]
fn binary_bitmap_packs_eight_pixels_to_a_byte() {
    let bitmap = Bitmap::from_raw_bytes(
        &[255, 0, 0, 0, 0, 0, 0, 0, 0, 0, 0, 0, 0, 0, 0, 128],
        8,
    );
    let packed = BinaryBitmap::from(&bitmap);
    assert_eq!(packed.width, 8);
    assert_eq!(packed.height, 2);
    assert_eq!(packed.buffer, vec![0b1000_0000, 0b0000_0001]);
}

#[test]
fn binary_bitmap_lights_pixels_above_the_threshold() {
    let bitmap = Bitmap::from_raw_bytes(&[127, 128, 0, 255, 126, 129, 1, 254], 8);
    let packed = BinaryBitmap::from(&bitmap);
    assert_eq!(packed.buffer, vec![0b0101_0101]);
    let empty = BinaryBitmap::from(&Bitmap::new(0, 0));
    assert_eq!(empty.buffer.len(), 0);
}

#[test]
fn a_bitmap_is_valid_if_it_holds_all_its_pixels() {
    assert!(Bitmap::new(3, 2).is_valid());
    assert!(Bitmap { width: 3, height: 2, buffer: vec![0; 7] }.is_valid());
    assert!(!Bitmap { width: 3, height: 2, buffer: vec![0; 5] }.is_valid());
    assert!(!Bitmap { width: usize::MAX, height: 2, buffer: vec![] }.is_valid());
    assert!(Bitmap { width: usize::MAX, height: 0, buffer: vec![] }.is_valid());
}
