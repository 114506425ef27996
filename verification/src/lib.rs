//! A small widget, layout and bitmap-rendering toolkit for driving a
//! low-resolution monochrome display from a continuously running host.
//!
//! Every widget is advanced by an elapsed-time delta and blits into a shared
//! one-byte-per-pixel canvas. All geometry, all animation state machines and
//! all pixel operations are verified; their contracts are stated over the
//! mathematical models defined next to each type.

pub mod components;
pub mod display_controller;
pub mod input;
pub mod media_provider;
pub mod output;
pub mod overlays;
pub mod performance_monitor;
mod random;
pub mod rendering;
pub mod screens;
pub mod time;

pub use input::UserInput;
pub use time::TimeSpan;
