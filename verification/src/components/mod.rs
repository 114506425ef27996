//! Widgets and the rectangle algebra that positions them.

pub mod layout;
pub mod text;
pub mod video;
pub mod widget;

pub use layout::{
    can_center, can_center_hor, can_center_ver, centered_bounds, Bounds, EmptyBounds, Point, Rect,
    Size, MAX_EXTENT,
};
pub use text::{Alignment, ScrollingState, ScrollingTextWidget, SimpleTextWidget, TextWidget};
pub use video::VideoWidget;
pub use widget::{with_centered, BitmapWidget, Drawable, Widget};
