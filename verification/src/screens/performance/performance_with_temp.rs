use vstd::prelude::*;
use vstd::string::StringExecFns;
use super::bars::DoubleBarWidget;
use crate::components::layout::{
    can_center_ver,
    centerable_ver,
    centered,
    Bounds,
    EmptyBounds,
    Point,
    Rect,
    Size,
    MAX_EXTENT,
};
use crate::components::text::simple_text::SimpleTextWidget;
use crate::components::text::text_widget::TextWidget;
use crate::components::widget::{BitmapWidget, Drawable, Widget};
use crate::performance_monitor::PerformanceStatistics;
use crate::rendering::bitmap::{Bitmap, Pixels};
use crate::rendering::text::{text_picture, Font};
use crate::screens::collection::Screen;
use crate::time::TimeSpan;

verus! {

/// The width of the column of a temperature, in pixels.
pub const TEXT_WIDTH: u32 = 45;

/// The height of a bar in pixels.
pub const BAR_HEIGHT: u32 = 10;

/// The gap between a bar and the separator beside it, in pixels.
pub const SEPARATOR_MARGIN: i32 = 8;

/// How far from the top and from the bottom the separators run, in pixels.
pub const SEPARATOR_POS: i32 = 18;

/// How far right of the center of its half the processor's icon stands,
/// in pixels.
pub const ICON_SHIFT: i32 = 3;

/// The interval of the slits in a separator.
pub const SEPARATOR_SLITS: usize = 2;

/// Displays two computer performance bars (cpu usage and combined gpu/vram
/// usage), as well as cpu and gpu temperatures.
pub struct PerformanceWithTemperatureScreen<'a> {
    stats: PerformanceStatistics,
    cpu_icon: BitmapWidget,
    cpu_text: SimpleTextWidget<'a>,
    cpu_bar: DoubleBarWidget,
    gpu_icon: BitmapWidget,
    gpu_text: SimpleTextWidget<'a>,
    gpu_bar: DoubleBarWidget,
}

/// The text that shows a temperature whose degrees are written `degrees`.
pub open spec fn temperature_text(degrees: Seq<char>) -> Seq<char> {
    degrees + " C"@
}

/// What belongs to one of the two processors: its icon, the text of its
/// temperature and its bar.
pub struct Gauge<'a> {
    pub icon: BitmapWidget,
    pub text: SimpleTextWidget<'a>,
    pub bar: DoubleBarWidget,
}

impl<'a> PerformanceWithTemperatureScreen<'a> {
    /// The statistics shown.
    pub closed spec fn statistics(&self) -> PerformanceStatistics {
        self.stats
    }

    /// What belongs to the processor.
    pub closed spec fn cpu(&self) -> Gauge<'a> {
        Gauge { icon: self.cpu_icon, text: self.cpu_text, bar: self.cpu_bar }
    }

    /// What belongs to the graphics processor.
    pub closed spec fn gpu(&self) -> Gauge<'a> {
        Gauge { icon: self.gpu_icon, text: self.gpu_text, bar: self.gpu_bar }
    }

    /// The image of the processor's temperature shown from this frame on.
    pub open spec fn cpu_image(&self) -> Pixels {
        text_picture(
            self.cpu().text.typeface(),
            temperature_text(self.statistics().cpu_temperature@),
        )
    }

    /// The image of the graphics processor's temperature shown from this
    /// frame on.
    pub open spec fn gpu_image(&self) -> Pixels {
        text_picture(
            self.gpu().text.typeface(),
            temperature_text(self.statistics().gpu_temperature@),
        )
    }

    /// The bounds of the processor's bar: in the top left corner of the
    /// canvas, up to the column of the temperature at the right edge of
    /// `bounds`.
    pub open spec fn cpu_bar_bounds(bounds: Bounds) -> Bounds {
        Rect {
            pos: Point { x: 0, y: 0 },
            size: Size {
                width: (bounds.pos.x + bounds.size.width - TEXT_WIDTH) as u32,
                height: BAR_HEIGHT,
            },
        }
    }

    /// The bounds of the graphics processor's bar: at the bottom of
    /// `bounds`, from the column of the temperature at the left edge of
    /// `bounds` to their right edge.
    pub open spec fn gpu_bar_bounds(bounds: Bounds) -> Bounds {
        Rect {
            pos: Point {
                x: (bounds.pos.x + TEXT_WIDTH) as i32,
                y: (bounds.pos.y + bounds.size.height - BAR_HEIGHT) as i32,
            },
            size: Size { width: (bounds.size.width - TEXT_WIDTH) as u32, height: BAR_HEIGHT },
        }
    }

    /// The canvas after the half of the processor was drawn onto it: the
    /// icon in the center of the right half of the canvas, a little to the
    /// right; the bar; the temperature in the center of its column, level
    /// with the bar.
    pub open spec fn with_cpu(&self, canvas: Pixels, bounds: Bounds, elapsed: TimeSpan) -> Pixels {
        let half = (canvas.width as int) / 2;
        let icon = self.cpu().icon.image();
        let values = self.cpu().bar.displayed_after(
            self.statistics().cpu_usage_group_1,
            self.statistics().cpu_usage_group_2,
            elapsed,
        );
        let text = self.cpu_image();
        DoubleBarWidget::painted_with(
            canvas.with_bitmap(
                centered(half, canvas.width - half, icon.width as int) + ICON_SHIFT,
                centered(bounds.pos.y as int, bounds.size.height as int, icon.height as int),
                icon,
            ),
            Self::cpu_bar_bounds(bounds),
            values.0,
            values.1,
        ).with_bitmap(
            centered(
                bounds.pos.x + bounds.size.width - TEXT_WIDTH,
                TEXT_WIDTH as int,
                text.width as int,
            ),
            centered(0, BAR_HEIGHT as int, text.height as int),
            text,
        )
    }

    /// The canvas after the half of the graphics processor was drawn onto
    /// it: the icon in the center of the left half of the canvas; the bar;
    /// the temperature in the center of its column, level with the bar.
    pub open spec fn with_gpu(&self, canvas: Pixels, bounds: Bounds, elapsed: TimeSpan) -> Pixels {
        let half = (canvas.width as int) / 2;
        let icon = self.gpu().icon.image();
        let values = self.gpu().bar.displayed_after(
            self.statistics().gpu_usage,
            self.statistics().vram_usage,
            elapsed,
        );
        let text = self.gpu_image();
        DoubleBarWidget::painted_with(
            canvas.with_bitmap(
                centered(0, half, icon.width as int),
                centered(bounds.pos.y as int, bounds.size.height as int, icon.height as int),
                icon,
            ),
            Self::gpu_bar_bounds(bounds),
            values.0,
            values.1,
        ).with_bitmap(
            centered(bounds.pos.x as int, TEXT_WIDTH as int, text.width as int),
            centered(
                bounds.pos.y + bounds.size.height - BAR_HEIGHT,
                BAR_HEIGHT as int,
                text.height as int,
            ),
            text,
        )
    }

    /// `canvas` with the separators drawn onto it: a dashed line below the
    /// processor's bar over the left half, one above the graphics
    /// processor's bar over the right half, and one between them down the
    /// middle.
    pub open spec fn with_separators(canvas: Pixels, bounds: Bounds) -> Pixels {
        let half = (bounds.size.width as int) / 2;
        canvas.with_slit_rect(0, SEPARATOR_POS as int, half, 1, SEPARATOR_SLITS as int).with_slit_rect(
            half,
            bounds.size.height - SEPARATOR_POS,
            half,
            1,
            SEPARATOR_SLITS as int,
        ).with_slit_rect(
            half,
            SEPARATOR_POS as int,
            1,
            bounds.size.height - 2 * SEPARATOR_POS,
            SEPARATOR_SLITS as int,
        )
    }

    /// The canvas after the screen was drawn onto it into `bounds`,
    /// `elapsed` after the frame before.
    pub open spec fn painted(&self, canvas: Pixels, bounds: Bounds, elapsed: TimeSpan) -> Pixels {
        Self::with_separators(
            self.with_gpu(self.with_cpu(canvas, bounds, elapsed), bounds, elapsed),
            bounds,
        )
    }

    /// A screen with the two icons given and the temperatures written in
    /// `font`. Nothing is used yet and no temperature is shown.
    pub fn new(font: &'a Font, cpu_icon: BitmapWidget, gpu_icon: BitmapWidget) -> (r: Self)
        requires
            font.wf(),
            cpu_icon.wf(),
            gpu_icon.wf(),
        ensures
            r.wf(),
            r.cpu().icon == cpu_icon,
            r.gpu().icon == gpu_icon,
            r.cpu().text.content() == Seq::<char>::empty(),
            r.gpu().text.content() == Seq::<char>::empty(),
            r.cpu().text.typeface() == *font,
            r.gpu().text.typeface() == *font,
            r.cpu().bar.displayed() == (0u32, 0u32),
            r.gpu().bar.displayed() == (0u32, 0u32),
            r.statistics().cpu_usage_group_1 == 0,
            r.statistics().cpu_usage_group_2 == 0,
            r.statistics().gpu_usage == 0,
            r.statistics().vram_usage == 0,
            r.statistics().cpu_temperature@ == Seq::<char>::empty(),
            r.statistics().gpu_temperature@ == Seq::<char>::empty(),
    {
        PerformanceWithTemperatureScreen {
            stats: PerformanceStatistics::default(),
            cpu_icon,
            cpu_text: SimpleTextWidget::new(String::new(), font),
            cpu_bar: DoubleBarWidget::new(),
            gpu_icon,
            gpu_text: SimpleTextWidget::new(String::new(), font),
            gpu_bar: DoubleBarWidget::new(),
        }
    }

    /// The bars of the processor and of the graphics processor.
    pub fn bars(&self) -> (r: (&DoubleBarWidget, &DoubleBarWidget))
        ensures
            *r.0 == self.cpu().bar,
            *r.1 == self.gpu().bar,
    {
        (&self.cpu_bar, &self.gpu_bar)
    }

    /// The texts of the temperatures of the processor and of the graphics
    /// processor.
    pub fn texts(&self) -> (r: (&SimpleTextWidget<'a>, &SimpleTextWidget<'a>))
        ensures
            *r.0 == self.cpu().text,
            *r.1 == self.gpu().text,
    {
        (&self.cpu_text, &self.gpu_text)
    }

    /// Takes over the statistics to show from the next frame on.
    pub fn set_statistics(&mut self, stats: PerformanceStatistics)
        requires
            old(self).wf(),
        ensures
            final(self).wf(),
            final(self).statistics() == stats,
            final(self).cpu() == old(self).cpu(),
            final(self).gpu() == old(self).gpu(),
    {
        self.stats = stats;
    }
}

/// The text that shows a temperature whose degrees are written `degrees`.
fn temperature_label(degrees: &String) -> (r: String)
    ensures
        r@ == temperature_text(degrees@),
{
    degrees.clone().concat(" C")
}

impl<'a> Drawable for PerformanceWithTemperatureScreen<'a> {
    open spec fn wf(&self) -> bool {
        &&& self.cpu().icon.wf()
        &&& self.cpu().text.wf()
        &&& self.cpu().bar.wf()
        &&& self.gpu().icon.wf()
        &&& self.gpu().text.wf()
        &&& self.gpu().bar.wf()
    }

    open spec fn fits(&self, canvas: Pixels, bounds: Bounds) -> bool {
        &&& bounds.modest()
        &&& canvas.width <= MAX_EXTENT
        &&& bounds.size.width >= TEXT_WIDTH + 2
        &&& bounds.pos.x + bounds.size.width >= TEXT_WIDTH + 2
        &&& bounds.size.height >= 2 * SEPARATOR_POS
        &&& centerable_ver(self.cpu().icon.image().height as u32, bounds)
        &&& centerable_ver(self.gpu().icon.image().height as u32, bounds)
    }

    open spec fn draws(
        &self,
        next: &Self,
        canvas: Pixels,
        result: Pixels,
        bounds: Bounds,
        elapsed: TimeSpan,
    ) -> bool {
        &&& next.statistics() == self.statistics()
        &&& next.cpu().icon == self.cpu().icon
        &&& next.gpu().icon == self.gpu().icon
        &&& next.cpu().text.typeface() == self.cpu().text.typeface()
        &&& next.gpu().text.typeface() == self.gpu().text.typeface()
        &&& next.cpu().text.content() == temperature_text(self.statistics().cpu_temperature@)
        &&& next.gpu().text.content() == temperature_text(self.statistics().gpu_temperature@)
        &&& self.cpu().bar.fed(
            &next.cpu().bar,
            self.statistics().cpu_usage_group_1,
            self.statistics().cpu_usage_group_2,
            elapsed,
        )
        &&& self.gpu().bar.fed(
            &next.gpu().bar,
            self.statistics().gpu_usage,
            self.statistics().vram_usage,
            elapsed,
        )
        &&& result == self.painted(canvas, bounds, elapsed)
    }

    fn can_draw(&self, canvas: &Bitmap, bounds: Bounds) -> (r: bool) {
        bounds.is_modest() && canvas.width <= MAX_EXTENT as usize && bounds.size.width
            >= TEXT_WIDTH + 2 && bounds.pos.x as i64 + bounds.size.width as i64 >= TEXT_WIDTH as i64
            + 2 && bounds.size.height >= 2 * (SEPARATOR_POS as u32) && can_center_ver(
            self.cpu_icon.size().height,
            &bounds,
        ) && can_center_ver(self.gpu_icon.size().height, &bounds)
    }

    /// Lets the bars approach the usages of the statistics, shows the
    /// temperatures, and draws the two halves and the separators.
    fn draw(&mut self, canvas: &mut Bitmap, bounds: Bounds, elapsed: &TimeSpan) {
        self.cpu_bar.set_values_smoothed(
            self.stats.cpu_usage_group_1,
            self.stats.cpu_usage_group_2,
        );
        let cpu_label = temperature_label(&self.stats.cpu_temperature);
        self.cpu_text.set_text(cpu_label.as_str());
        self.gpu_bar.set_values_smoothed(self.stats.gpu_usage, self.stats.vram_usage);
        let gpu_label = temperature_label(&self.stats.gpu_temperature);
        self.gpu_text.set_text(gpu_label.as_str());
        proof {
            self.cpu_text.lemma_height();
            self.gpu_text.lemma_height();
        }
        let canvas_width: i32 = canvas.width as i32;

        {
            let icon_bounds = EmptyBounds::new().with_size(self.cpu_icon.size()).center_ver_in(
                &bounds,
            ).center_hor_in(&EmptyBounds::new().between_hor(canvas_width / 2, canvas_width)).move_x(
                ICON_SHIFT,
            );
            self.cpu_icon.draw(canvas, icon_bounds, elapsed);
            let text_bounds_outer = EmptyBounds::new().with_height(
                self.cpu_text.size().height,
            ).with_width(TEXT_WIDTH).align_right(&bounds);
            let bar_bounds = EmptyBounds::new().with_height(BAR_HEIGHT).with_y(0).between_hor(
                0,
                text_bounds_outer.pos.x,
            );
            self.cpu_bar.draw(canvas, bar_bounds, elapsed);
            let text_bounds_inner = text_bounds_outer.center_ver_in(&bar_bounds).with_width(
                self.cpu_text.size().width,
            ).center_hor_in(&text_bounds_outer);
            self.cpu_text.draw(canvas, text_bounds_inner, elapsed)
        }
        {
            let icon_bounds = EmptyBounds::new().with_size(self.gpu_icon.size()).center_ver_in(
                &bounds,
            ).center_hor_in(&EmptyBounds::new().between_hor(0, canvas_width / 2));
            self.gpu_icon.draw(canvas, icon_bounds, elapsed);
            let text_bounds_outer = EmptyBounds::new().with_height(
                self.gpu_text.size().height,
            ).with_width(TEXT_WIDTH).align_left(&bounds);
            let bar_bounds = EmptyBounds::new().with_height(BAR_HEIGHT).align_bottom(
                &bounds,
            ).between_hor(text_bounds_outer.right(), bounds.right());
            self.gpu_bar.draw(canvas, bar_bounds, elapsed);
            let text_bounds_inner = text_bounds_outer.center_ver_in(&bar_bounds).with_width(
                self.gpu_text.size().width,
            ).center_hor_in(&text_bounds_outer);
            self.gpu_text.draw(canvas, text_bounds_inner, elapsed)
        }

        let half: usize = bounds.size.width as usize / 2;
        canvas.draw_rect_with_slits(0, SEPARATOR_POS, half, 1, SEPARATOR_SLITS);
        canvas.draw_rect_with_slits(
            half as i32,
            bounds.size.height as i32 - SEPARATOR_POS,
            half,
            1,
            SEPARATOR_SLITS,
        );
        canvas.draw_rect_with_slits(
            half as i32,
            SEPARATOR_POS,
            1,
            bounds.size.height as usize - 2 * (SEPARATOR_POS as usize),
            SEPARATOR_SLITS,
        );
    }
}

impl<'a> Screen for PerformanceWithTemperatureScreen<'a> {
    open spec fn mounts(&self, next: &Self) -> bool {
        &&& next.statistics() == self.statistics()
        &&& next.cpu().icon == self.cpu().icon
        &&& next.cpu().text == self.cpu().text
        &&& next.gpu().icon == self.gpu().icon
        &&& next.gpu().text == self.gpu().text
        &&& next.cpu().bar.displayed() == (0u32, 0u32)
        &&& next.cpu().bar.aim() == (0u32, 0u32)
        &&& next.gpu().bar.displayed() == (0u32, 0u32)
        &&& next.gpu().bar.aim() == (0u32, 0u32)
    }

    /// Empties the bars, so that they rise anew.
    fn on_mount(&mut self) {
        self.cpu_bar.set_values(0, 0);
        self.gpu_bar.set_values(0, 0);
    }
}

} // verus!
