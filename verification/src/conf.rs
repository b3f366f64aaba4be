//! Simulation configuration: fixed-point units and the immutable set of
//! constants (depth range, per-frame step, sprite radius) that every
//! component receives.

use vstd::prelude::*;

verus! {

/// Fixed-point denominator for world-space depth: one world unit of depth is
/// `FP` units. The value is `720_000 = 5_000 * 144`, so that both the
/// near-plane depth `0.1` and the per-frame travel at the target frame rate
/// (`1/144` of a world unit) are exact.
pub const FP: i64 = 720_000;

/// Fixed-point denominator for screen coordinates: one pixel is `COORD`
/// units, giving sub-pixel precision to particle positions.
pub const COORD: i64 = 1000;

/// The immutable configuration handed to every component: the depth range
/// `[near, far)`, the per-frame depth step, the sprite radius, and the bound
/// on particle coordinates. All depths are in `FP` units, all screen lengths
/// in `COORD` units.
pub struct Config {
    /// Near-plane depth (`FP` units); particles crossing below it recycle.
    pub near: i64,
    /// Far-plane depth (`FP` units); recycled particles re-enter below it.
    pub far: i64,
    /// Depth travelled per frame (`FP` units), i.e. `speed * dt`.
    pub step: i64,
    /// Half the sprite's native edge length (`COORD` units).
    pub radius: i64,
    /// Bound on the magnitude of particle x/y coordinates (`COORD` units).
    pub max_coord: i64,
}

impl Config {
    /// Well-formedness: a positive depth range, a step small enough that a
    /// recycled particle lands back inside the range, and bounds that keep
    /// every projection product inside `i64`.
    pub open spec fn wf(self) -> bool {
        &&& 1 <= self.near < self.far
        &&& 0 < self.step <= self.far - self.near
        &&& self.far <= 1_000_000_000
        &&& 0 <= self.radius
        &&& 0 <= self.max_coord
        &&& (self.max_coord + self.radius) * ((FP * FP) / self.near as int)
            <= 1_000_000_000_000_000
    }
}

/// The configuration the demo runs with: depth range `[0.1, 10.0)`, speed
/// `1.0` world unit per second at 144 frames per second, a sprite radius of
/// 40 pixels, and room for coordinates up to 100_000 pixels from the origin.
pub fn standard_config() -> (cfg: Config)
    ensures
        cfg.wf(),
        cfg.near == FP / 10,
        cfg.far == 10 * FP,
        cfg.step == FP / 144,
        cfg.radius == 40 * COORD,
        cfg.max_coord == 100_000_000,
{
    Config {
        near: 72_000,
        far: 7_200_000,
        step: 5_000,
        radius: 40_000,
        max_coord: 100_000_000,
    }
}

} // verus!
