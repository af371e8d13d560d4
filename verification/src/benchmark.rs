//! The fixed production trace benchmark workload.

use vstd::prelude::*;

use crate::budget::DeviceLimits;
use crate::extent::RenderExtent;
use crate::tiles::{grid_of, tile_grid};

verus! {

pub const BENCHMARK_WIDTH: u32 = 1_280;
pub const BENCHMARK_HEIGHT: u32 = 720;

/// Pixels of one benchmark trace.
pub const BENCHMARK_PIXELS: u64 = 921_600;

/// Why the benchmark workload cannot run on a device.
#[derive(Clone, Copy, Debug, PartialEq, Eq, Structural)]
pub enum TraceBenchmarkError {
    UnsupportedExtent,
}

/// The benchmark extent, when the device can hold its texture and dispatch its whole tile grid
/// at once.
pub fn benchmark_extent(limits: &DeviceLimits) -> (result: Result<RenderExtent, TraceBenchmarkError>)
    ensures
        result is Ok <==> (BENCHMARK_WIDTH <= limits.max_texture_dimension_2d && BENCHMARK_HEIGHT
            <= limits.max_texture_dimension_2d && grid_of((BENCHMARK_WIDTH, BENCHMARK_HEIGHT)).0
            <= limits.max_compute_workgroups_per_dimension && grid_of((BENCHMARK_WIDTH, BENCHMARK_HEIGHT)).1
            <= limits.max_compute_workgroups_per_dimension),
        result matches Ok(extent) ==> extent@ == (BENCHMARK_WIDTH, BENCHMARK_HEIGHT),
        result is Err ==> result == Err::<RenderExtent, TraceBenchmarkError>(TraceBenchmarkError::UnsupportedExtent),
{
    let extent = match RenderExtent::new(BENCHMARK_WIDTH, BENCHMARK_HEIGHT) {
        Some(extent) => extent,
        None => return Err(TraceBenchmarkError::UnsupportedExtent),
    };
    let grid = tile_grid(extent);
    if BENCHMARK_WIDTH > limits.max_texture_dimension_2d || BENCHMARK_HEIGHT > limits.max_texture_dimension_2d
        || grid[0] > limits.max_compute_workgroups_per_dimension || grid[1]
        > limits.max_compute_workgroups_per_dimension {
        return Err(TraceBenchmarkError::UnsupportedExtent);
    }
    Ok(extent)
}

} // verus!
