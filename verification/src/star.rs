//! The particle data types: a star (world position plus depth) and the
//! screen-space vertex a star projects to.

use vstd::prelude::*;

use crate::conf::Config;

verus! {

/// A two-dimensional point, in `COORD` units per pixel.
#[derive(Clone, Copy, PartialEq, Eq, Structural, Debug)]
pub struct Vec2 {
    pub x: i64,
    pub y: i64,
}

/// One particle of the starfield: `position` is the world-space x/y at the
/// depth-1 reference plane (`COORD` units), `z` is the depth along the view
/// axis (`FP` units).
#[derive(Clone, Copy, PartialEq, Eq, Structural, Debug)]
pub struct Star {
    pub position: Vec2,
    pub z: i64,
}

impl Star {
    /// The invariant every live star satisfies: depth inside `[near, far)`
    /// and coordinates within the configured bound.
    pub open spec fn wf(self, cfg: Config) -> bool {
        &&& cfg.near <= self.z < cfg.far
        &&& -cfg.max_coord <= self.position.x <= cfg.max_coord
        &&& -cfg.max_coord <= self.position.y <= cfg.max_coord
    }

    pub fn new(x: i64, y: i64, z: i64) -> (s: Star)
        ensures
            s.position.x == x,
            s.position.y == y,
            s.z == z,
    {
        Star { position: Vec2 { x, y }, z }
    }
}

/// The screen-space image of one star, recomputed every frame: the top-left
/// corner of its sprite quad (`COORD` units), the perspective scale (`FP`
/// units, i.e. `FP` means a scale factor of one), and the grayscale value
/// shared by the red, green and blue channels (alpha is always full).
#[derive(Clone, Copy, PartialEq, Eq, Structural, Debug)]
pub struct StarVertex {
    pub position: Vec2,
    pub scale: i64,
    pub channel: u8,
}

impl Default for StarVertex {
    /// The all-zero vertex used to prefill the per-frame scratch buffer.
    fn default() -> (v: StarVertex)
        ensures
            v.position.x == 0,
            v.position.y == 0,
            v.scale == 0,
            v.channel == 0,
    {
        StarVertex { position: Vec2 { x: 0, y: 0 }, scale: 0, channel: 0 }
    }
}

} // verus!
