//! Screen, camera and run configuration.

use vstd::prelude::*;
use crate::math::SCALE;

verus! {

/// Largest accepted number of character cells along either screen axis.
pub const DIM_MAX: usize = 16384;

/// Largest accepted magnitude of the camera distance, in fixed-point units.
pub const DIST_MAX: i64 = 0x4000_0000;

/// Largest accepted projection scale factor, in fixed-point units.
pub const K1_MAX: i64 = 0x100_0000;

/// Largest accepted cube width, in fixed-point units.
pub const CUBE_WIDTH_MAX: i64 = 0x200_0000;

/// The size of the output surface, in character cells.
#[derive(Clone, Copy, Debug, PartialEq, Eq, Structural)]
pub struct ScreenSize {
    pub width: usize,
    pub height: usize,
}

impl ScreenSize {
    /// Both dimensions are positive and small enough for every index
    /// computation of the renderer to stay in range.
    pub open spec fn valid(self) -> bool {
        &&& 1 <= self.width <= DIM_MAX
        &&& 1 <= self.height <= DIM_MAX
    }

    /// The number of cells of a frame at this size.
    pub open spec fn area(self) -> int {
        self.width * self.height
    }
}

/// The pinhole-camera parameters, fixed for a run.
#[derive(Clone, Copy, Debug, PartialEq, Eq, Structural)]
pub struct CameraSettings {
    /// Offset added to a rotated point's depth before projection.
    pub distance_from_cam: i64,
    /// Projection scale factor.
    pub k1: i64,
}

impl CameraSettings {
    pub open spec fn valid(self) -> bool {
        &&& -DIST_MAX <= self.distance_from_cam <= DIST_MAX
        &&& 0 <= self.k1 <= K1_MAX
    }
}

/// The configuration surface of a run, consumed read-only by the core.
#[derive(Clone, Copy, Debug, PartialEq, Eq, Structural)]
pub struct Parameter {
    /// Target frame rate, in frames per second.
    pub target_fps: u32,
    /// Camera distance, in fixed-point units.
    pub distance_from_cam: i64,
    /// Projection scale factor, in fixed-point units.
    pub k1: i64,
    /// Edge length of the cube, in fixed-point units.
    pub cube_width: i64,
}

impl Default for Parameter {
    /// The default run configuration: 30 frames per second, camera distance
    /// 100, projection scale 40 and cube width 40 world units.
    fn default() -> (r: Self)
        ensures
            r.target_fps == 30,
            r.distance_from_cam == 100 * SCALE,
            r.k1 == 40 * SCALE,
            r.cube_width == 40 * SCALE,
    {
        Parameter {
            target_fps: 30,
            distance_from_cam: 100 * SCALE,
            k1: 40 * SCALE,
            cube_width: 40 * SCALE,
        }
    }
}

} // verus!
