use vstd::prelude::*;

verus! {

/// How busy the computer is at one moment. Usages are counted in millionths
/// of the whole; temperatures are held as the decimal text of their degrees.
#[derive(Clone, Debug)]
pub struct PerformanceStatistics {
    pub memory_usage: u32,
    pub cpu_usage_group_1: u32,
    pub cpu_usage_group_2: u32,
    pub cpu_temperature: String,
    pub gpu_usage: u32,
    pub vram_usage: u32,
    pub gpu_temperature: String,
}

impl Default for PerformanceStatistics {
    /// Nothing is used and no temperature is known.
    fn default() -> (r: Self)
        ensures
            r.memory_usage == 0,
            r.cpu_usage_group_1 == 0,
            r.cpu_usage_group_2 == 0,
            r.cpu_temperature@ == Seq::<char>::empty(),
            r.gpu_usage == 0,
            r.vram_usage == 0,
            r.gpu_temperature@ == Seq::<char>::empty(),
    {
        PerformanceStatistics {
            memory_usage: 0,
            cpu_usage_group_1: 0,
            cpu_usage_group_2: 0,
            cpu_temperature: String::new(),
            gpu_usage: 0,
            vram_usage: 0,
            gpu_temperature: String::new(),
        }
    }
}

} // verus!
