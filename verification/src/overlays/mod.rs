//! Transient displays drawn after, and instead of, the active screen.

pub mod media;
pub mod screensaver;

pub use media::{MediaOverlay, PlayPauseOverlay, TrackInfoOverlay};
pub use screensaver::ScreensaverOverlay;
