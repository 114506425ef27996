use vstd::prelude::*;
use super::clock::ClockScreen;
use super::collection::Screen;
use super::media::MediaScreen;
use super::performance::performance_with_mem::PerformanceWithMemoryScreen;
use super::performance::performance_with_temp::PerformanceWithTemperatureScreen;
use super::stickfight::StickFightScreen;
use crate::components::layout::Bounds;
use crate::components::widget::Drawable;
use crate::media_provider::MediaProvider;
use crate::rendering::bitmap::{Bitmap, Pixels};
use crate::time::TimeSpan;

verus! {

/// Any one of the screens, so that a collection can hold screens of
/// different kinds.
pub enum AnyScreen<'a, M: MediaProvider> {
    Clock(ClockScreen<'a>),
    Media(MediaScreen<'a, M>),
    PerformanceWithMemory(PerformanceWithMemoryScreen<'a>),
    PerformanceWithTemperature(PerformanceWithTemperatureScreen<'a>),
    StickFight(StickFightScreen),
}

impl<'a, M: MediaProvider> Drawable for AnyScreen<'a, M> {
    open spec fn wf(&self) -> bool {
        match self {
            AnyScreen::Clock(screen) => screen.wf(),
            AnyScreen::Media(screen) => screen.wf(),
            AnyScreen::PerformanceWithMemory(screen) => screen.wf(),
            AnyScreen::PerformanceWithTemperature(screen) => screen.wf(),
            AnyScreen::StickFight(screen) => screen.wf(),
        }
    }

    open spec fn fits(&self, canvas: Pixels, bounds: Bounds) -> bool {
        match self {
            AnyScreen::Clock(screen) => screen.fits(canvas, bounds),
            AnyScreen::Media(screen) => screen.fits(canvas, bounds),
            AnyScreen::PerformanceWithMemory(screen) => screen.fits(canvas, bounds),
            AnyScreen::PerformanceWithTemperature(screen) => screen.fits(canvas, bounds),
            AnyScreen::StickFight(screen) => screen.fits(canvas, bounds),
        }
    }

    open spec fn draws(
        &self,
        next: &Self,
        canvas: Pixels,
        result: Pixels,
        bounds: Bounds,
        elapsed: TimeSpan,
    ) -> bool {
        match (self, next) {
            (AnyScreen::Clock(screen), AnyScreen::Clock(after)) => screen.draws(
                after,
                canvas,
                result,
                bounds,
                elapsed,
            ),
            (AnyScreen::Media(screen), AnyScreen::Media(after)) => screen.draws(
                after,
                canvas,
                result,
                bounds,
                elapsed,
            ),
            (
                AnyScreen::PerformanceWithMemory(screen),
                AnyScreen::PerformanceWithMemory(after),
            ) => screen.draws(after, canvas, result, bounds, elapsed),
            (
                AnyScreen::PerformanceWithTemperature(screen),
                AnyScreen::PerformanceWithTemperature(after),
            ) => screen.draws(after, canvas, result, bounds, elapsed),
            (AnyScreen::StickFight(screen), AnyScreen::StickFight(after)) => screen.draws(
                after,
                canvas,
                result,
                bounds,
                elapsed,
            ),
            _ => false,
        }
    }

    fn can_draw(&self, canvas: &Bitmap, bounds: Bounds) -> (r: bool) {
        match self {
            AnyScreen::Clock(screen) => screen.can_draw(canvas, bounds),
            AnyScreen::Media(screen) => screen.can_draw(canvas, bounds),
            AnyScreen::PerformanceWithMemory(screen) => screen.can_draw(canvas, bounds),
            AnyScreen::PerformanceWithTemperature(screen) => screen.can_draw(canvas, bounds),
            AnyScreen::StickFight(screen) => screen.can_draw(canvas, bounds),
        }
    }

    /// Draws the screen that this is.
    fn draw(&mut self, canvas: &mut Bitmap, bounds: Bounds, elapsed: &TimeSpan) {
        match self {
            AnyScreen::Clock(screen) => screen.draw(canvas, bounds, elapsed),
            AnyScreen::Media(screen) => screen.draw(canvas, bounds, elapsed),
            AnyScreen::PerformanceWithMemory(screen) => screen.draw(canvas, bounds, elapsed),
            AnyScreen::PerformanceWithTemperature(screen) => screen.draw(canvas, bounds, elapsed),
            AnyScreen::StickFight(screen) => screen.draw(canvas, bounds, elapsed),
        }
    }
}

impl<'a, M: MediaProvider> Screen for AnyScreen<'a, M> {
    open spec fn mounts(&self, next: &Self) -> bool {
        match (self, next) {
            (AnyScreen::Clock(screen), AnyScreen::Clock(after)) => screen.mounts(after),
            (AnyScreen::Media(screen), AnyScreen::Media(after)) => screen.mounts(after),
            (
                AnyScreen::PerformanceWithMemory(screen),
                AnyScreen::PerformanceWithMemory(after),
            ) => screen.mounts(after),
            (
                AnyScreen::PerformanceWithTemperature(screen),
                AnyScreen::PerformanceWithTemperature(after),
            ) => screen.mounts(after),
            (AnyScreen::StickFight(screen), AnyScreen::StickFight(after)) => screen.mounts(after),
            _ => false,
        }
    }

    /// Mounts the screen that this is.
    fn on_mount(&mut self) {
        match self {
            AnyScreen::Clock(screen) => screen.on_mount(),
            AnyScreen::Media(screen) => screen.on_mount(),
            AnyScreen::PerformanceWithMemory(screen) => screen.on_mount(),
            AnyScreen::PerformanceWithTemperature(screen) => screen.on_mount(),
            AnyScreen::StickFight(screen) => screen.on_mount(),
        }
    }
}

} // verus!
