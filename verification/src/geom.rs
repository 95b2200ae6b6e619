//! Fixed-point points, mirroring and rotation.
//!
//! A coordinate is an `i64` count of subunits, `SCALE` subunits to the
//! unit.  A rotation is carried as the pair `(sin, cos)` of its angle,
//! likewise scaled by `SCALE`, so applying it is integer multiplication
//! followed by one division by `SCALE`.

use vstd::prelude::*;

verus! {

/// Subunits per unit of the fixed-point representation.
pub const SCALE: i64 = 1000;

/// Largest magnitude (in subunits) a coordinate or slider value may take.
/// Keeping everything inside this bound keeps every product in this crate
/// far from `i64` overflow.
pub const COORD_LIMIT: i64 = 1_000_000_000;

/// A point of the plane, in subunits.
#[derive(Clone, Copy, Debug, PartialEq, Eq, Structural)]
pub struct Point {
    pub x: i64,
    pub y: i64,
}

/// A rotation, carried as the scaled sine and cosine of its angle.
#[derive(Clone, Copy, Debug, PartialEq, Eq, Structural)]
pub struct Rotation {
    pub sin: i64,
    pub cos: i64,
}

/// `v` is small enough to be a coordinate.
pub open spec fn in_range(v: int) -> bool {
    -COORD_LIMIT <= v <= COORD_LIMIT
}

/// Both coordinates of `p` are in range.
pub open spec fn point_in_range(p: Point) -> bool {
    in_range(p.x as int) && in_range(p.y as int)
}

impl Rotation {
    /// A well-formed rotation: sine and cosine scaled by `SCALE` never
    /// exceed `SCALE` in magnitude.
    pub open spec fn wf(self) -> bool {
        &&& -SCALE <= self.sin <= SCALE
        &&& -SCALE <= self.cos <= SCALE
    }

    /// The rotation by angle zero: `(sin, cos) == (0, SCALE)`.
    pub fn identity() -> (r: Rotation)
        ensures
            r.sin == 0,
            r.cos == SCALE,
            r.wf(),
    {
        Rotation { sin: 0, cos: SCALE }
    }
}

/// The abscissa of `p` mirrored by the sign pair `(sx, sy)`.
pub open spec fn mirror_x(p: Point, sx: int) -> int {
    sx * p.x
}

/// The ordinate of `p` mirrored by the sign pair `(sx, sy)`.
pub open spec fn mirror_y(p: Point, sy: int) -> int {
    sy * p.y
}

/// Division of `v` by `SCALE`, rounding toward zero (the rounding that
/// `i64` division performs on either sign).
pub open spec fn scale_down(v: int) -> int {
    if v >= 0 {
        v / (SCALE as int)
    } else {
        -((-v) / (SCALE as int))
    }
}

/// Divide by `SCALE`, rounding toward zero.
pub fn div_scale(v: i64) -> (r: i64)
    requires
        -4 * SCALE * COORD_LIMIT <= v <= 4 * SCALE * COORD_LIMIT,
    ensures
        r == scale_down(v as int),
{
    if v >= 0 {
        v / SCALE
    } else {
        -((-v) / SCALE)
    }
}

/// The abscissa of `p` after mirroring by `(sx, sy)`, rotating by `rot`
/// and translating by `c`: the standard plane rotation
/// `x' = cos * x - sin * y`, in fixed point.
pub open spec fn transform_x(p: Point, sx: int, sy: int, rot: Rotation, c: Point) -> int {
    scale_down(rot.cos * mirror_x(p, sx) - rot.sin * mirror_y(p, sy)) + c.x
}

/// The ordinate of `p` after mirroring by `(sx, sy)`, rotating by `rot`
/// and translating by `c`: the standard plane rotation
/// `y' = sin * x + cos * y`, in fixed point.
pub open spec fn transform_y(p: Point, sx: int, sy: int, rot: Rotation, c: Point) -> int {
    scale_down(rot.sin * mirror_x(p, sx) + rot.cos * mirror_y(p, sy)) + c.y
}

/// Mirror `p` by the sign pair `(sx, sy)`, rotate it by `rot`, and
/// translate it by `c`.
pub fn transform_point(p: Point, sx: i64, sy: i64, rot: &Rotation, c: Point) -> (r: Point)
    requires
        sx == 1 || sx == -1,
        sy == 1 || sy == -1,
        point_in_range(p),
        rot.wf(),
        point_in_range(c),
    ensures
        r.x == transform_x(p, sx as int, sy as int, *rot, c),
        r.y == transform_y(p, sx as int, sy as int, *rot, c),
{
    let mx: i64 = sx * p.x;
    let my: i64 = sy * p.y;
    proof {
        lemma_mul_abs_bounded(rot.cos as int, mx as int, SCALE as int, COORD_LIMIT as int);
        lemma_mul_abs_bounded(rot.sin as int, my as int, SCALE as int, COORD_LIMIT as int);
        lemma_mul_abs_bounded(rot.sin as int, mx as int, SCALE as int, COORD_LIMIT as int);
        lemma_mul_abs_bounded(rot.cos as int, my as int, SCALE as int, COORD_LIMIT as int);
    }
    let rx: i64 = div_scale(rot.cos * mx - rot.sin * my);
    let ry: i64 = div_scale(rot.sin * mx + rot.cos * my);
    Point { x: rx + c.x, y: ry + c.y }
}

/// A product is bounded in magnitude by the product of its factors'
/// magnitude bounds.
proof fn lemma_mul_abs_bounded(a: int, b: int, ca: int, cb: int)
    requires
        -ca <= a <= ca,
        -cb <= b <= cb,
        0 <= ca,
        0 <= cb,
    ensures
        -(ca * cb) <= a * b <= ca * cb,
{
    assert(-(ca * cb) <= a * b <= ca * cb) by (nonlinear_arith)
        requires -ca <= a <= ca && -cb <= b <= cb && 0 <= ca && 0 <= cb;
}

/// Scaling `m` up by `SCALE` and back down returns exactly `m`.
proof fn lemma_scale_round_trip(m: int)
    ensures
        scale_down((SCALE as int) * m) == m,
{
    if m >= 0 {
        assert((SCALE as int) * m >= 0) by (nonlinear_arith)
            requires m >= 0;
        assert(((SCALE as int) * m) / (SCALE as int) == m) by (nonlinear_arith)
            requires m >= 0;
    } else {
        assert((SCALE as int) * m < 0) by (nonlinear_arith)
            requires m < 0;
        assert(-((SCALE as int) * m) == (SCALE as int) * (-m));
        assert(((SCALE as int) * (-m)) / (SCALE as int) == -m) by (nonlinear_arith)
            requires m > 0 || -m >= 0;
    }
}

/// Rotation identity: under the zero rotation `(sin, cos) == (0, SCALE)`
/// the transform moves each mirrored point straight to the centre, with
/// no rotation at all.
pub proof fn lemma_rotation_identity(p: Point, sx: int, sy: int, c: Point)
    requires
        sx == 1 || sx == -1,
        sy == 1 || sy == -1,
    ensures
        transform_x(p, sx, sy, (Rotation { sin: 0, cos: SCALE }), c) == mirror_x(p, sx) + c.x,
        transform_y(p, sx, sy, (Rotation { sin: 0, cos: SCALE }), c) == mirror_y(p, sy) + c.y,
{
    let rot = Rotation { sin: 0, cos: SCALE };
    assert(rot.cos * mirror_x(p, sx) - rot.sin * mirror_y(p, sy) == (SCALE as int) * mirror_x(p, sx));
    assert(rot.sin * mirror_x(p, sx) + rot.cos * mirror_y(p, sy) == (SCALE as int) * mirror_y(p, sy));
    lemma_scale_round_trip(mirror_x(p, sx));
    lemma_scale_round_trip(mirror_y(p, sy));
}

} // verus!
