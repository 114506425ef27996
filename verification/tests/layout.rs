use oculed::components::{
    can_center, can_center_hor, can_center_ver, Bounds, EmptyBounds, Point, Rect, Size,
};
use oculed::rendering::Bitmap;

fn bounds(x: i32, y: i32, width: u32, height: u32) -> Bounds {
    Rect { pos: Point { x, y }, size: Size { width, height } }
}

#[test]
fn right_and_bottom_are_position_plus_size() {
    let rect = bounds(-7, 12, 30, 5);
    assert_eq!(rect.right(), 23);
    assert_eq!(rect.bottom(), 17);
    let far = bounds(i32::MAX - 10, i32::MIN, 10, 4);
    assert_eq!(far.right(), i32::MAX);
    assert_eq!(far.bottom(), i32::MIN + 4);
}

#[test]
fn centering_truncates_toward_the_left() {
    let container = bounds(0, 0, 10, 10);
    let centered = EmptyBounds::new().with_width(3).center_hor_in(&container);
    assert_eq!(centered.pos.x, 3);
    assert_eq!(centered.size.width, 3);
}

#[test]
fn centering_truncates_toward_the_top() {
    let container = bounds(5, 20, 10, 9);
    let centered = EmptyBounds::new().with_height(4).center_ver_in(&container);
    assert_eq!(centered.pos.y, 22);
    assert_eq!(centered.size.height, 4);
}

#[test]
fn centering_an_even_difference_is_exact() {
    let container = bounds(4, -6, 20, 12);
    let centered = EmptyBounds::new().with_size(Size { width: 8, height: 2 }).center_in(&container);
    assert_eq!(centered.pos.x, 10);
    assert_eq!(centered.pos.y, -1);
    assert_eq!(centered.size.width, 8);
    assert_eq!(centered.size.height, 2);
}

#[test]
fn centering_twice_changes_nothing() {
    let container = bounds(3, 4, 11, 15);
    let rect = bounds(100, -100, 6, 6);
    let once = rect.center_in(&container);
    let twice = once.center_in(&container);
    assert_eq!(once.pos.x, twice.pos.x);
    assert_eq!(once.pos.y, twice.pos.y);
    let hor_once = rect.center_hor_in(&container);
    let hor_twice = hor_once.center_hor_in(&container);
    assert_eq!(hor_once.pos.x, 5);
    assert_eq!(hor_twice.pos.x, 5);
    assert_eq!(hor_twice.pos.y, -100);
    let ver_once = rect.center_ver_in(&container);
    let ver_twice = ver_once.center_ver_in(&container);
    assert_eq!(ver_once.pos.y, 8);
    assert_eq!(ver_twice.pos.y, 8);
    assert_eq!(ver_twice.pos.x, 100);
}

#[test]
fn centering_a_larger_rect_is_biased_toward_the_top_left() {
    let container = bounds(0, 0, 3, 3);
    let centered = EmptyBounds::new().with_size(Size { width: 10, height: 8 }).center_in(&container);
    assert_eq!(centered.pos.x, -4);
    assert_eq!(centered.pos.y, -3);
}

#[test]
fn with_fields_resolve_one_field_each() {
    let rect = EmptyBounds::new().with_x(4).with_y(-9).with_width(12).with_height(7);
    assert_eq!(rect.pos.x, 4);
    assert_eq!(rect.pos.y, -9);
    assert_eq!(rect.size.width, 12);
    assert_eq!(rect.size.height, 7);
    let replaced = rect.with_x(1).with_y(2).with_width(3).with_height(4);
    assert_eq!(replaced.pos.x, 1);
    assert_eq!(replaced.pos.y, 2);
    assert_eq!(replaced.size.width, 3);
    assert_eq!(replaced.size.height, 4);
    let sized = rect.with_size(Size { width: 40, height: 50 });
    assert_eq!(sized.pos.x, 4);
    assert_eq!(sized.size.width, 40);
    assert_eq!(sized.size.height, 50);
}

#[test]
fn moving_shifts_the_position() {
    let rect = bounds(10, 20, 5, 6);
    let moved = rect.move_x(-15).move_y(7);
    assert_eq!(moved.pos.x, -5);
    assert_eq!(moved.pos.y, 27);
    assert_eq!(moved.size.width, 5);
    assert_eq!(moved.size.height, 6);
}

#[test]
fn left_of_touches_the_left_edge() {
    let other = bounds(50, 0, 20, 20);
    let rect = EmptyBounds::new().with_width(8).left_of(&other);
    assert_eq!(rect.pos.x, 42);
    assert_eq!(rect.right(), 50);
}

#[test]
fn right_of_touches_the_right_edge() {
    let other = bounds(50, 0, 20, 20);
    let rect = EmptyBounds::new().with_width(8).right_of(&other);
    assert_eq!(rect.pos.x, 70);
    assert_eq!(rect.size.width, 8);
}

#[test]
fn above_and_below_touch_the_edges() {
    let other = bounds(0, 30, 10, 12);
    let above = EmptyBounds::new().with_height(5).above(&other);
    assert_eq!(above.pos.y, 25);
    assert_eq!(above.bottom(), 30);
    let below = EmptyBounds::new().with_height(5).below(&other);
    assert_eq!(below.pos.y, 42);
}

#[test]
fn aligning_makes_the_edges_coincide() {
    let other = bounds(-3, 8, 40, 30);
    let left = EmptyBounds::new().with_width(6).align_left(&other);
    assert_eq!(left.pos.x, -3);
    let right = EmptyBounds::new().with_width(6).align_right(&other);
    assert_eq!(right.pos.x, 31);
    assert_eq!(right.right(), other.right());
    let top = EmptyBounds::new().with_height(4).align_top(&other);
    assert_eq!(top.pos.y, 8);
    let bottom = EmptyBounds::new().with_height(4).align_bottom(&other);
    assert_eq!(bottom.pos.y, 34);
    assert_eq!(bottom.bottom(), other.bottom());
}

#[test]
fn between_resolves_position_and_size() {
    let hor = EmptyBounds::new().between_hor(-5, 7);
    assert_eq!(hor.pos.x, -5);
    assert_eq!(hor.size.width, 12);
    assert_eq!(hor.right(), 7);
    let ver = EmptyBounds::new().between_ver(3, 3);
    assert_eq!(ver.pos.y, 3);
    assert_eq!(ver.size.height, 0);
    let wide = EmptyBounds::new().between_hor(i32::MIN, i32::MAX);
    assert_eq!(wide.size.width, u32::MAX);
}

#[test]
fn cover_bitmap_is_the_whole_bitmap() {
    let bitmap = Bitmap::new(128, 64);
    let cover = Bounds::cover_bitmap(&bitmap);
    assert_eq!(cover.pos.x, 0);
    assert_eq!(cover.pos.y, 0);
    assert_eq!(cover.size.width, 128);
    assert_eq!(cover.size.height, 64);
}

#[test]
fn modest_bounds_are_told_apart() {
    assert!(bounds(0, 0, 128, 64).is_modest());
    assert!(bounds(0, 0, 0x1fff_ffff, 0).is_modest());
    assert!(bounds(-1, -1, 128, 64).is_modest());
    assert!(bounds(-0x1fff_ffff, -0x1fff_ffff, 0x3fff_fffe, 0x3fff_fffe).is_modest());
    assert!(!bounds(-0x2000_0000, 0, 128, 64).is_modest());
    assert!(!bounds(0, -0x2000_0000, 128, 64).is_modest());
    assert!(!bounds(1, 0, 0x1fff_ffff, 64).is_modest());
    assert!(!bounds(0, 1, 10, 0x1fff_ffff).is_modest());
}

#[test]
fn it_is_told_whether_a_size_can_be_centered() {
    let area = bounds(-20, -10, 100, 50);
    assert!(can_center(Size { width: 10, height: 10 }, &area));
    assert!(can_center(Size { width: u32::MAX, height: 0 }, &area));
    // An extent 200 pixels wider than its container begins 100 pixels
    // left of it; one pixel wider, it begins 101 pixels left of it.
    assert!(can_center_hor(u32::MAX, &bounds(i32::MIN + 100, 0, 0xffff_ff37, 0)));
    assert!(!can_center_hor(u32::MAX, &bounds(i32::MIN + 100, 0, 0xffff_ff36, 0)));
    assert!(!can_center_ver(u32::MAX, &bounds(0, i32::MIN, 0, 0)));
    assert!(can_center_ver(0, &bounds(0, i32::MAX, 0, 1)));
    assert!(!can_center_ver(0, &bounds(0, i32::MAX, 0, 2)));
    assert!(!can_center(Size { width: 0, height: 0 }, &bounds(i32::MAX, 0, 2, 0)));
}
