use vstd::prelude::*;
use vstd::string::StringExecFns;
use super::bars::{holds_bar, BarWidget, DoubleBarWidget};
use crate::components::layout::{centered, Bounds, EmptyBounds, Point, Rect, Size, MAX_EXTENT};
use crate::components::text::simple_text::SimpleTextWidget;
use crate::components::widget::{Drawable, Widget};
use crate::performance_monitor::PerformanceStatistics;
use crate::rendering::bitmap::{Bitmap, Pixels};
use crate::rendering::text::Font;
use crate::screens::collection::Screen;
use crate::time::TimeSpan;

verus! {

/// The height of a bar in pixels.
pub const BAR_HEIGHT: u32 = 10;

/// The gap between a label and its bar, in pixels.
pub const TEXT_PADDING: u32 = 7;

/// The margin above the first and below the last bar, in pixels.
pub const VERTICAL_PADDING: u32 = 8;

/// Displays three computer performance bars (cpu usage, memory usage and
/// combined gpu/vram usage), each with its label to the left.
pub struct PerformanceWithMemoryScreen<'a> {
    stats: PerformanceStatistics,
    cpu_label: SimpleTextWidget<'a>,
    cpu_bar: DoubleBarWidget,
    mem_label: SimpleTextWidget<'a>,
    mem_bar: BarWidget,
    gpu_label: SimpleTextWidget<'a>,
    gpu_bar: DoubleBarWidget,
}

/// The larger of two widths.
pub open spec fn wider(a: int, b: int) -> int {
    if a >= b {
        a
    } else {
        b
    }
}

impl<'a> PerformanceWithMemoryScreen<'a> {
    /// The statistics shown.
    pub closed spec fn statistics(&self) -> PerformanceStatistics {
        self.stats
    }

    /// The label and the bar of the processor.
    pub closed spec fn cpu(&self) -> (SimpleTextWidget<'a>, DoubleBarWidget) {
        (self.cpu_label, self.cpu_bar)
    }

    /// The label and the bar of the memory.
    pub closed spec fn mem(&self) -> (SimpleTextWidget<'a>, BarWidget) {
        (self.mem_label, self.mem_bar)
    }

    /// The label and the bar of the graphics processor.
    pub closed spec fn gpu(&self) -> (SimpleTextWidget<'a>, DoubleBarWidget) {
        (self.gpu_label, self.gpu_bar)
    }

    /// The width of the column of the labels: that of the widest label and
    /// the gap to the bars.
    pub open spec fn text_width(&self) -> int {
        TEXT_PADDING + wider(
            self.cpu().0.image().width as int,
            wider(self.mem().0.image().width as int, self.gpu().0.image().width as int),
        )
    }

    /// The bounds of a bar with its top at `top`: right of the labels, up
    /// to the right edge.
    pub open spec fn bar_bounds(&self, bounds: Bounds, top: int) -> Bounds {
        Rect {
            pos: Point { x: self.text_width() as i32, y: top as i32 },
            size: Size {
                width: (bounds.size.width - self.text_width()) as u32,
                height: BAR_HEIGHT,
            },
        }
    }

    /// The row of the top of the first bar.
    pub open spec fn first_top(bounds: Bounds) -> int {
        bounds.pos.y + VERTICAL_PADDING
    }

    /// The row of the top of the second bar.
    pub open spec fn second_top(bounds: Bounds) -> int {
        centered(
            bounds.pos.y + VERTICAL_PADDING,
            bounds.size.height - 2 * VERTICAL_PADDING,
            BAR_HEIGHT as int,
        )
    }

    /// The row of the top of the third bar.
    pub open spec fn third_top(bounds: Bounds) -> int {
        bounds.pos.y + bounds.size.height - VERTICAL_PADDING - BAR_HEIGHT
    }

    /// `canvas` with a label drawn onto it at the left edge, vertically
    /// centered on the bar with its top at `top`.
    pub open spec fn with_label(canvas: Pixels, label: Pixels, top: int) -> Pixels {
        canvas.with_bitmap(0, centered(top, BAR_HEIGHT as int, label.height as int), label)
    }

    /// The canvas after the screen was drawn onto it into `bounds`,
    /// `elapsed` after the frame before: the three bars one above the
    /// other, the first at the top, the second in the middle and the third
    /// at the bottom of `bounds` less its margins, each with its label.
    pub open spec fn painted(&self, canvas: Pixels, bounds: Bounds, elapsed: TimeSpan) -> Pixels {
        let stats = self.statistics();
        let cpu = self.cpu().1.displayed_after(
            stats.cpu_usage_group_1,
            stats.cpu_usage_group_2,
            elapsed,
        );
        let mem = self.mem().1.displayed_after(stats.memory_usage, elapsed);
        let gpu = self.gpu().1.displayed_after(stats.gpu_usage, stats.vram_usage, elapsed);
        let first = Self::with_label(
            DoubleBarWidget::painted_with(
                canvas,
                self.bar_bounds(bounds, Self::first_top(bounds)),
                cpu.0,
                cpu.1,
            ),
            self.cpu().0.image(),
            Self::first_top(bounds),
        );
        let second = Self::with_label(
            BarWidget::painted_with(
                first,
                self.bar_bounds(bounds, Self::second_top(bounds)),
                mem,
            ),
            self.mem().0.image(),
            Self::second_top(bounds),
        );
        Self::with_label(
            DoubleBarWidget::painted_with(
                second,
                self.bar_bounds(bounds, Self::third_top(bounds)),
                gpu.0,
                gpu.1,
            ),
            self.gpu().0.image(),
            Self::third_top(bounds),
        )
    }

    /// A screen with the labels written in `font`. Nothing is used yet.
    pub fn new(font: &'a Font) -> (r: Self)
        requires
            font.wf(),
        ensures
            r.wf(),
            r.cpu().0.content() == "CPU"@,
            r.mem().0.content() == "MEM"@,
            r.gpu().0.content() == "GPU"@,
            r.cpu().0.typeface() == *font,
            r.mem().0.typeface() == *font,
            r.gpu().0.typeface() == *font,
            r.cpu().1.displayed() == (0u32, 0u32),
            r.mem().1.displayed() == 0,
            r.gpu().1.displayed() == (0u32, 0u32),
            r.statistics().memory_usage == 0,
            r.statistics().cpu_usage_group_1 == 0,
            r.statistics().cpu_usage_group_2 == 0,
            r.statistics().gpu_usage == 0,
            r.statistics().vram_usage == 0,
    {
        PerformanceWithMemoryScreen {
            stats: PerformanceStatistics::default(),
            cpu_label: SimpleTextWidget::new(String::from_str("CPU"), font),
            cpu_bar: DoubleBarWidget::new(),
            mem_label: SimpleTextWidget::new(String::from_str("MEM"), font),
            mem_bar: BarWidget::new(),
            gpu_label: SimpleTextWidget::new(String::from_str("GPU"), font),
            gpu_bar: DoubleBarWidget::new(),
        }
    }

    /// The bars of the processor, of the memory and of the graphics
    /// processor.
    pub fn bars(&self) -> (r: (&DoubleBarWidget, &BarWidget, &DoubleBarWidget))
        ensures
            *r.0 == self.cpu().1,
            *r.1 == self.mem().1,
            *r.2 == self.gpu().1,
    {
        (&self.cpu_bar, &self.mem_bar, &self.gpu_bar)
    }

    /// Takes over the statistics to show from the next frame on.
    pub fn set_statistics(&mut self, stats: PerformanceStatistics)
        requires
            old(self).wf(),
        ensures
            final(self).wf(),
            final(self).statistics() == stats,
            final(self).cpu() == old(self).cpu(),
            final(self).mem() == old(self).mem(),
            final(self).gpu() == old(self).gpu(),
    {
        self.stats = stats;
    }
}

impl<'a> Drawable for PerformanceWithMemoryScreen<'a> {
    open spec fn wf(&self) -> bool {
        &&& self.cpu().0.wf()
        &&& self.cpu().1.wf()
        &&& self.mem().0.wf()
        &&& self.mem().1.wf()
        &&& self.gpu().0.wf()
        &&& self.gpu().1.wf()
    }

    open spec fn fits(&self, canvas: Pixels, bounds: Bounds) -> bool {
        &&& bounds.modest()
        &&& bounds.size.height >= 2 * VERTICAL_PADDING
        &&& bounds.size.width >= self.text_width() + 2
    }

    open spec fn draws(
        &self,
        next: &Self,
        canvas: Pixels,
        result: Pixels,
        bounds: Bounds,
        elapsed: TimeSpan,
    ) -> bool {
        &&& next.statistics() == self.statistics()
        &&& next.cpu().0 == self.cpu().0
        &&& next.mem().0 == self.mem().0
        &&& next.gpu().0 == self.gpu().0
        &&& self.cpu().1.fed(
            &next.cpu().1,
            self.statistics().cpu_usage_group_1,
            self.statistics().cpu_usage_group_2,
            elapsed,
        )
        &&& self.mem().1.fed(&next.mem().1, self.statistics().memory_usage, elapsed)
        &&& self.gpu().1.fed(
            &next.gpu().1,
            self.statistics().gpu_usage,
            self.statistics().vram_usage,
            elapsed,
        )
        &&& result == self.painted(canvas, bounds, elapsed)
    }

    fn can_draw(&self, canvas: &Bitmap, bounds: Bounds) -> (r: bool) {
        proof {
            self.cpu_label.lemma_height();
            self.mem_label.lemma_height();
            self.gpu_label.lemma_height();
        }
        let cpu_width = self.cpu_label.size().width;
        let mem_width = self.mem_label.size().width;
        let gpu_width = self.gpu_label.size().width;
        let widest = if mem_width >= gpu_width {
            mem_width
        } else {
            gpu_width
        };
        let text_width = TEXT_PADDING + if cpu_width >= widest {
            cpu_width
        } else {
            widest
        };
        bounds.is_modest() && bounds.size.height >= 2 * VERTICAL_PADDING && bounds.size.width as u64
            >= text_width as u64 + 2
    }

    /// Lets the bars approach the usages of the statistics and draws them
    /// with their labels.
    fn draw(&mut self, canvas: &mut Bitmap, bounds: Bounds, elapsed: &TimeSpan) {
        self.cpu_bar.set_values_smoothed(
            self.stats.cpu_usage_group_1,
            self.stats.cpu_usage_group_2,
        );
        self.mem_bar.set_value_smoothed(self.stats.memory_usage);
        self.gpu_bar.set_values_smoothed(self.stats.gpu_usage, self.stats.vram_usage);
        proof {
            self.cpu_label.lemma_height();
            self.mem_label.lemma_height();
            self.gpu_label.lemma_height();
        }

        let canvas_bounds = bounds.move_y(VERTICAL_PADDING as i32).with_height(
            bounds.size.height - 2 * VERTICAL_PADDING,
        );
        let cpu_width = self.cpu_label.size().width;
        let mem_width = self.mem_label.size().width;
        let gpu_width = self.gpu_label.size().width;
        let widest = if mem_width >= gpu_width {
            mem_width
        } else {
            gpu_width
        };
        let text_width = TEXT_PADDING + if cpu_width >= widest {
            cpu_width
        } else {
            widest
        };
        let text_bounds = EmptyBounds::new().with_width(text_width).with_x(0);
        let bar_bounds = EmptyBounds::new().with_height(BAR_HEIGHT).between_hor(
            text_bounds.right(),
            canvas_bounds.size.width as i32,
        );

        {
            let cpu_bar_bounds = bar_bounds.align_top(&canvas_bounds);
            self.cpu_bar.draw(canvas, cpu_bar_bounds, elapsed);
            let cpu_text_bounds = text_bounds.with_height(
                self.cpu_label.size().height,
            ).center_ver_in(&cpu_bar_bounds);
            self.cpu_label.draw(canvas, cpu_text_bounds, elapsed);
        }
        {
            let mem_bar_bounds = bar_bounds.center_ver_in(&canvas_bounds);
            self.mem_bar.draw(canvas, mem_bar_bounds, elapsed);
            let mem_text_bounds = text_bounds.with_height(
                self.mem_label.size().height,
            ).center_ver_in(&mem_bar_bounds);
            self.mem_label.draw(canvas, mem_text_bounds, elapsed);
        }
        {
            let gpu_bar_bounds = bar_bounds.align_bottom(&canvas_bounds);
            self.gpu_bar.draw(canvas, gpu_bar_bounds, elapsed);
            let gpu_text_bounds = text_bounds.with_height(
                self.gpu_label.size().height,
            ).center_ver_in(&gpu_bar_bounds);
            self.gpu_label.draw(canvas, gpu_text_bounds, elapsed);
        }
    }
}

impl<'a> Screen for PerformanceWithMemoryScreen<'a> {
    open spec fn mounts(&self, next: &Self) -> bool {
        &&& next.statistics() == self.statistics()
        &&& next.cpu().0 == self.cpu().0
        &&& next.mem().0 == self.mem().0
        &&& next.gpu().0 == self.gpu().0
        &&& next.cpu().1.displayed() == (0u32, 0u32)
        &&& next.cpu().1.aim() == (0u32, 0u32)
        &&& next.mem().1.displayed() == 0
        &&& next.mem().1.aim() == 0
        &&& next.gpu().1.displayed() == (0u32, 0u32)
        &&& next.gpu().1.aim() == (0u32, 0u32)
    }

    /// Empties the bars, so that they rise anew.
    fn on_mount(&mut self) {
        self.cpu_bar.set_values(0, 0);
        self.mem_bar.set_value(0);
        self.gpu_bar.set_values(0, 0);
    }
}

} // verus!
