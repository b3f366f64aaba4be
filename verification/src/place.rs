//! RNG/placement: randomized star positions and depths, rejecting positions
//! inside the dead zone in front of the viewer so that no star pops into
//! view already on top of the camera.

use vstd::prelude::*;

use vstd::arithmetic::div_mod::lemma_div_by_self;
use vstd::arithmetic::div_mod::lemma_div_is_ordered;
use vstd::arithmetic::div_mod::lemma_div_pos_is_pos;
use crate::conf::Config;
use crate::conf::FP;
use crate::project::div_pos;
use crate::star::Star;
use crate::star::Vec2;

verus! {

/// Draws per star before placement falls back to the dead-zone edge. With
/// `spread > near` the dead zone covers a `near/spread` fraction of the
/// sampling rectangle per axis, so thousands of consecutive rejections do
/// not happen in practice; the budget only bounds the loop.
pub const MAX_ATTEMPTS: usize = 10_000;

/// Half-extent of the rectangular dead zone along an axis whose viewport
/// extent is `extent` (`COORD` units): the viewport scaled by the
/// near-plane depth, centered at the origin.
pub open spec fn dead_zone_half(cfg: Config, extent: int) -> int {
    (extent * cfg.near) / (2 * FP)
}

/// Whether `(x, y)` lies outside the dead zone of a `w`-by-`h` viewport.
/// The zone is half-open on the high side of each axis, matching how the
/// placement loop tests a candidate.
pub open spec fn outside_dead_zone(cfg: Config, w: int, h: int, x: int, y: int) -> bool {
    ||| x < -dead_zone_half(cfg, w)
    ||| x >= dead_zone_half(cfg, w)
    ||| y < -dead_zone_half(cfg, h)
    ||| y >= dead_zone_half(cfg, h)
}

/// Relies on rand::random_range over `lo..hi`: a value drawn from the
/// half-open range by the thread-local generator. The draw depends on the
/// generator's state, so only membership in the range is stated. The callee
/// panics exactly on an empty range, which the precondition rules out.
#[verifier::external_body]
fn random_in_range(lo: i64, hi: i64) -> (r: i64)
    requires
        lo < hi,
    ensures
        lo <= r < hi,
{
    rand::random_range(lo..hi)
}

/// Places one star: position uniform over the spread rectangle, redrawn
/// while it falls inside the dead zone, and depth uniform over
/// `[near, far)`. Should every draw in the budget be rejected — which a
/// dead zone smaller than the sampling rectangle makes vanishingly
/// unlikely — the star is placed on the dead zone's eastern edge.
fn place_star(cfg: &Config, half_x: i64, half_y: i64, dead_x: i64, dead_y: i64) -> (s: Star)
    requires
        cfg.wf(),
        1 <= half_x <= cfg.max_coord,
        1 <= half_y <= cfg.max_coord,
        0 <= dead_x <= half_x,
        0 <= dead_y <= half_y,
    ensures
        cfg.near <= s.z < cfg.far,
        -half_x <= s.position.x <= half_x,
        -half_y <= s.position.y <= half_y,
        s.position.x < -dead_x || s.position.x >= dead_x || s.position.y < -dead_y
            || s.position.y >= dead_y,
        s.wf(*cfg),
{
    let mut x: i64 = dead_x;
    let mut y: i64 = 0;
    let mut done: bool = false;
    let mut tries: usize = 0;
    while tries < MAX_ATTEMPTS && !done
        invariant
            -half_x <= x <= half_x,
            -half_y <= y <= half_y,
            x < -dead_x || x >= dead_x || y < -dead_y || y >= dead_y,
            1 <= half_x,
            1 <= half_y,
            0 <= dead_x <= half_x,
            0 <= dead_y <= half_y,
        decreases MAX_ATTEMPTS - tries,
    {
        let cx = random_in_range(-half_x, half_x);
        let cy = random_in_range(-half_y, half_y);
        if cx < -dead_x || cx >= dead_x || cy < -dead_y || cy >= dead_y {
            x = cx;
            y = cy;
            done = true;
        }
        tries = tries + 1;
    }
    let z = random_in_range(cfg.near, cfg.far);
    Star { position: Vec2 { x, y }, z }
}

/// Generates `count` random stars for a `w`-by-`h` viewport (`COORD`
/// units): positions are drawn from the rectangle of the viewport enlarged
/// by `spread` (`FP` units) and land outside the dead zone, depths from
/// `[near, far)`. Requires `spread > near` so that the dead zone is no
/// larger than the sampling rectangle.
pub fn create_stars(cfg: &Config, w: i64, h: i64, count: usize, spread: i64) -> (stars: Vec<
    Star,
>)
    requires
        cfg.wf(),
        0 < w <= 4_000_000_000,
        0 < h <= 4_000_000_000,
        cfg.near < spread <= 1_000_000_000,
        2 * FP <= w * spread,
        2 * FP <= h * spread,
        (w * spread) / (2 * FP) <= cfg.max_coord,
        (h * spread) / (2 * FP) <= cfg.max_coord,
    ensures
        stars@.len() == count,
        forall|i: int| 0 <= i < count ==> (#[trigger] stars@[i]).wf(*cfg),
        forall|i: int| 0 <= i < count ==> cfg.near <= (#[trigger] stars@[i]).z < cfg.far,
        forall|i: int|
            0 <= i < count ==> outside_dead_zone(
                *cfg,
                w as int,
                h as int,
                (#[trigger] stars@[i]).position.x as int,
                stars@[i].position.y as int,
            ),
        forall|i: int|
            0 <= i < count ==> -((w * spread) / (2 * FP)) <= (#[trigger] stars@[i]).position.x
                <= (w * spread) / (2 * FP),
        forall|i: int|
            0 <= i < count ==> -((h * spread) / (2 * FP)) <= (#[trigger] stars@[i]).position.y
                <= (h * spread) / (2 * FP),
{
    proof {
        assert(w * spread <= 4_000_000_000_000_000_000 && w * cfg.near <= w * spread
            && 0 <= w * cfg.near && h * spread <= 4_000_000_000_000_000_000 && h * cfg.near
            <= h * spread && 0 <= h * cfg.near) by (nonlinear_arith)
            requires
                0 < w <= 4_000_000_000,
                0 < h <= 4_000_000_000,
                0 < cfg.near < spread <= 1_000_000_000,
        ;
    }
    let span_x: i64 = w * spread;
    let span_y: i64 = h * spread;
    let zone_x: i64 = w * cfg.near;
    let zone_y: i64 = h * cfg.near;
    let half_x: i64 = div_pos(span_x, 2 * FP);
    let half_y: i64 = div_pos(span_y, 2 * FP);
    let dead_x: i64 = div_pos(zone_x, 2 * FP);
    let dead_y: i64 = div_pos(zone_y, 2 * FP);
    proof {
        lemma_div_is_ordered(zone_x as int, span_x as int, 2 * FP);
        lemma_div_is_ordered(zone_y as int, span_y as int, 2 * FP);
        lemma_div_is_ordered(2 * FP, span_x as int, 2 * FP);
        lemma_div_is_ordered(2 * FP, span_y as int, 2 * FP);
        lemma_div_pos_is_pos(zone_x as int, 2 * FP);
        lemma_div_pos_is_pos(zone_y as int, 2 * FP);
        lemma_div_by_self(2 * FP);
    }
    let mut stars: Vec<Star> = Vec::new();
    let mut i: usize = 0;
    while i < count
        invariant
            cfg.wf(),
            stars@.len() == i,
            i <= count,
            1 <= half_x <= cfg.max_coord,
            1 <= half_y <= cfg.max_coord,
            0 <= dead_x <= half_x,
            0 <= dead_y <= half_y,
            half_x == (w * spread) / (2 * FP),
            half_y == (h * spread) / (2 * FP),
            dead_x == dead_zone_half(*cfg, w as int),
            dead_y == dead_zone_half(*cfg, h as int),
            forall|k: int| 0 <= k < i ==> (#[trigger] stars@[k]).wf(*cfg),
            forall|k: int| 0 <= k < i ==> cfg.near <= (#[trigger] stars@[k]).z < cfg.far,
            forall|k: int|
                0 <= k < i ==> -half_x <= (#[trigger] stars@[k]).position.x <= half_x,
            forall|k: int|
                0 <= k < i ==> -half_y <= (#[trigger] stars@[k]).position.y <= half_y,
            forall|k: int|
                0 <= k < i ==> (#[trigger] stars@[k]).position.x < -dead_x
                    || stars@[k].position.x >= dead_x || stars@[k].position.y < -dead_y
                    || stars@[k].position.y >= dead_y,
        decreases count - i,
    {
        let s = place_star(cfg, half_x, half_y, dead_x, dead_y);
        stars.push(s);
        i = i + 1;
    }
    stars
}

} // verus!
