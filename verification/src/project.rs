//! The projector: perspective scale, depth shading, and screen placement for
//! a single star.

use vstd::prelude::*;

use vstd::arithmetic::div_mod::lemma_basic_div;
use vstd::arithmetic::div_mod::lemma_div_by_self;
use vstd::arithmetic::div_mod::lemma_div_is_ordered;
use vstd::arithmetic::div_mod::lemma_div_multiples_vanish;
use vstd::arithmetic::div_mod::lemma_fundamental_div_mod;
use vstd::arithmetic::div_mod::lemma_fundamental_div_mod_converse_div;
use vstd::arithmetic::div_mod::lemma_mod_division_less_than_divisor;
use vstd::arithmetic::div_mod::lemma_div_is_ordered_by_denominator;
use vstd::arithmetic::div_mod::lemma_div_nonincreasing;
use vstd::arithmetic::div_mod::lemma_div_pos_is_pos;
use vstd::arithmetic::div_mod::lemma_multiply_divide_lt;
use crate::conf::Config;
use crate::conf::FP;
use crate::star::Star;
use crate::star::StarVertex;
use crate::star::Vec2;

verus! {

/// Largest magnitude accepted for a viewport-center coordinate.
pub const MAX_CENTER: i64 = 1_000_000_000_000;

/// Perspective scale of a star at `depth` (`FP` units of depth): the fixed
/// point form of `1 / depth`, carrying `FP` units of scale, so a depth of
/// one world unit gives a scale of `FP` (a factor of one).
pub open spec fn scale_of(depth: int) -> int
    recommends
        0 < depth,
{
    (FP * FP) / depth
}

/// Grayscale channel of a star at `depth`: the fixed-point form of
/// `round(255 * (1 - (depth - near) / (far - near)))`, rounding half up.
/// Nearest stars are brightest (255), stars at the far plane darkest.
pub open spec fn channel_of(cfg: Config, depth: int) -> int
    recommends
        cfg.wf(),
{
    ((cfg.far - depth) * 510 + (cfg.far - cfg.near)) / (2 * (cfg.far - cfg.near))
}

/// Division truncating toward zero, as the hardware divides: the form in
/// which the projector applies the perspective scale to a coordinate of
/// either sign.
pub open spec fn div_to_zero(a: int, b: int) -> int
    recommends
        0 < b,
{
    if a >= 0 {
        a / b
    } else {
        -((-a) / b)
    }
}

/// Screen coordinate of a sprite-quad corner: the world coordinate `p`
/// offset by the sprite radius, multiplied by the perspective scale, and
/// translated to the viewport center.
pub open spec fn corner_of(p: int, radius: int, scale: int, center: int) -> int {
    div_to_zero((p - radius) * scale, FP as int) + center
}

/// Projection monotonicity: of two depths both inside the configured range,
/// the smaller (nearer) one has at least as large a perspective scale and
/// at least as bright a grayscale channel as the larger one.
pub proof fn lemma_projection_monotone(cfg: Config, d1: int, d2: int)
    requires
        cfg.wf(),
        cfg.near <= d1 < d2 < cfg.far,
    ensures
        scale_of(d1) >= scale_of(d2),
        channel_of(cfg, d1) >= channel_of(cfg, d2),
{
    lemma_div_is_ordered_by_denominator(FP * FP, d1, d2);
    lemma_div_is_ordered(
        (cfg.far - d2) * 510 + (cfg.far - cfg.near),
        (cfg.far - d1) * 510 + (cfg.far - cfg.near),
        2 * (cfg.far - cfg.near),
    );
}

/// Scale strictness at fixed-point precision: when the gap between two
/// in-range depths is large enough — `d1 * d2 <= FP * FP * (d2 - d1)`, which
/// holds in particular whenever both stars are within one world unit of the
/// viewer — the nearer star's scale is strictly larger. Depths whose
/// product exceeds that bound can share one integer scale.
pub proof fn lemma_scale_strictly_monotone(cfg: Config, d1: int, d2: int)
    requires
        cfg.wf(),
        cfg.near <= d1 < d2 < cfg.far,
        d1 * d2 <= FP * FP * (d2 - d1),
    ensures
        scale_of(d1) > scale_of(d2),
{
    let n = FP * FP;
    let q2 = n / d2;
    let r2 = n % d2;
    lemma_fundamental_div_mod(n, d2);
    lemma_mod_division_less_than_divisor(n, d2);
    lemma_div_pos_is_pos(n, d2);
    assert(n >= (q2 + 1) * d1) by (nonlinear_arith)
        requires
            n == d2 * q2 + r2,
            0 <= r2 < d2,
            0 < d1 < d2,
            d1 * d2 <= n * (d2 - d1),
            0 <= q2,
    ;
    lemma_div_multiples_vanish(q2 + 1, d1);
    lemma_div_is_ordered((q2 + 1) * d1, n, d1);
    assert((d1 * (q2 + 1)) / d1 == q2 + 1);
}

/// Brightness at the depth extremes: a star exactly at the near plane
/// shades to the brightest channel value, 255, and the channel formula
/// reaches 0 at the far plane.
pub proof fn lemma_channel_at_planes(cfg: Config)
    requires
        cfg.wf(),
    ensures
        channel_of(cfg, cfg.near as int) == 255,
        channel_of(cfg, cfg.far as int) == 0,
{
    let k = cfg.far - cfg.near;
    lemma_fundamental_div_mod_converse_div(511 * k, 2 * k, 255, k);
    assert((cfg.far - cfg.near as int) * 510 + k == 511 * k);
    assert(255 * (2 * k) + k == 511 * k) by (nonlinear_arith);
    lemma_basic_div(k, 2 * k);
}

/// Quotient of two nonnegative machine integers, computed in the unsigned
/// domain where the machine quotient and the mathematical floor agree.
pub(crate) fn div_pos(a: i64, b: i64) -> (q: i64)
    requires
        0 <= a,
        0 < b,
    ensures
        q == a as int / b as int,
{
    proof {
        lemma_div_pos_is_pos(a as int, b as int);
        lemma_div_nonincreasing(a as int, b as int);
    }
    ((a as u64) / (b as u64)) as i64
}

/// Signed fixed-point division by `FP`, truncating toward zero.
fn div_fp(a: i64) -> (q: i64)
    requires
        -1_000_000_000_000_000 <= a <= 1_000_000_000_000_000,
    ensures
        q == div_to_zero(a as int, FP as int),
        -1_000_000_000_000_000 <= q <= 1_000_000_000_000_000,
{
    if a >= 0 {
        div_pos(a, FP)
    } else {
        proof {
            lemma_div_nonincreasing(-a as int, FP as int);
            lemma_div_pos_is_pos(-a as int, FP as int);
        }
        -div_pos(-a, FP)
    }
}

/// What it means for `v` to be the projection of star `s` onto a viewport
/// centered at `center`: perspective scale `1/z`, grayscale channel linear
/// in depth, and the top-left sprite corner at
/// `(position - radius) * scale + center`.
pub open spec fn projects(v: StarVertex, cfg: Config, s: Star, center: Vec2) -> bool {
    &&& v.scale == scale_of(s.z as int)
    &&& v.channel == channel_of(cfg, s.z as int)
    &&& v.position.x == corner_of(
        s.position.x as int,
        cfg.radius as int,
        scale_of(s.z as int),
        center.x as int,
    )
    &&& v.position.y == corner_of(
        s.position.y as int,
        cfg.radius as int,
        scale_of(s.z as int),
        center.y as int,
    )
}

/// Projects one star to screen space, writing the result into `vertex`: the
/// perspective scale `1/z`, the grayscale channel linear in depth, and the
/// top-left sprite corner `(position - radius) * scale + center`.
pub fn update_geometry(star: &Star, cfg: &Config, center: Vec2, vertex: &mut StarVertex)
    requires
        cfg.wf(),
        star.wf(*cfg),
        -MAX_CENTER <= center.x <= MAX_CENTER,
        -MAX_CENTER <= center.y <= MAX_CENTER,
    ensures
        projects(*final(vertex), *cfg, *star, center),
{
    let ghost bound: int = 1_000_000_000_000_000;
    let ghost reach: int = cfg.max_coord + cfg.radius;
    let ghost scale_cap: int = (FP * FP) / cfg.near as int;

    let scale: i64 = div_pos(FP * FP, star.z);
    proof {
        lemma_div_pos_is_pos(FP * FP, star.z as int);
        lemma_div_is_ordered_by_denominator(FP * FP, cfg.near as int, star.z as int);
        assert(0 <= scale <= scale_cap);
        // The coordinate bound alone fits in i64: the scale cap is at least 1.
        lemma_div_by_self(cfg.near as int);
        lemma_div_is_ordered(cfg.near as int, FP * FP, cfg.near as int);
        assert(reach <= reach * scale_cap) by (nonlinear_arith)
            requires
                0 <= reach,
                1 <= scale_cap,
        ;
    }

    let dx: i64 = star.position.x - cfg.radius;
    let dy: i64 = star.position.y - cfg.radius;
    proof {
        assert(-bound <= dx * scale <= bound && -bound <= dy * scale <= bound)
            by (nonlinear_arith)
            requires
                -reach <= dx <= reach,
                -reach <= dy <= reach,
                0 <= scale <= scale_cap,
                0 <= reach,
                reach * scale_cap <= bound,
        ;
    }
    let tx: i64 = dx * scale;
    let ty: i64 = dy * scale;
    let sx: i64 = div_fp(tx) + center.x;
    let sy: i64 = div_fp(ty) + center.y;

    let span: i64 = cfg.far - cfg.near;
    let num: i64 = (cfg.far - star.z) * 510 + span;
    let den: i64 = 2 * span;
    let q: i64 = div_pos(num, den);
    proof {
        // num <= 511 * span < 256 * den, so the quotient fits a color channel.
        lemma_multiply_divide_lt(num as int, den as int, 256);
        lemma_div_pos_is_pos(num as int, den as int);
    }
    let channel: u8 = q as u8;

    *vertex = StarVertex { position: Vec2 { x: sx, y: sy }, scale, channel };
}

} // verus!
