//! Screens that show how busy the computer is, and the gauges they use.

pub mod bars;
pub mod performance_with_mem;
pub mod performance_with_temp;

pub use bars::{draw_bar_limits, BarWidget, DoubleBarWidget};
pub use performance_with_mem::PerformanceWithMemoryScreen;
pub use performance_with_temp::PerformanceWithTemperatureScreen;
