//! Widgets that show text.

pub mod scrolling_text;
pub mod simple_text;
pub mod text_widget;

pub use scrolling_text::{Alignment, ScrollingState, ScrollingTextWidget};
pub use simple_text::SimpleTextWidget;
pub use text_widget::TextWidget;
