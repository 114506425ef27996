//! Full-screen widgets and the collection that switches between them.

pub mod any;
pub mod clock;
pub mod collection;
pub mod indicator;
pub mod matrix;
pub mod media;
pub mod performance;
pub mod randomvideos;
pub mod stickfight;

pub use any::AnyScreen;
pub use clock::ClockScreen;
pub use collection::{Screen, ScreenCollection};
pub use indicator::ScreenIndicator;
pub use matrix::MatrixScreen;
pub use media::MediaScreen;
pub use randomvideos::RandomVideosScreen;
pub use stickfight::StickFightScreen;
