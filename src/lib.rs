//! Interactive state and displacement-field encoding for a draggable
//! "liquid glass" panel: the panel's position and drag gesture kept inside
//! the viewport, the sampling and RGBA encoding of a displacement field, the
//! panel's transform descriptor, and a frame-rate counter.
use vstd::prelude::*;

pub mod monitor;
pub mod panel;
pub mod raster;
pub mod transform;

pub use monitor::{FrameRate, PerformanceMonitor};
pub use panel::GlassState;
pub use raster::{compute_shader_with_state, sample_points, sample_step, Scale};
pub use transform::calculate_transform_matrix;

verus! {

/// Whether enough time has passed since `last_time` for another update:
/// `current_time - last_time >= delay`, all in the same unit.
pub fn throttle_should_update(last_time: i64, current_time: i64, delay: i64) -> (r: bool)
    ensures
        r == (current_time - last_time >= delay),
{
    (current_time as i128) - (last_time as i128) >= delay as i128
}

} // verus!
