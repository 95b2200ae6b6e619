//! Quarter-curve generation for the superellipse.
//!
//! The boundary `|x/a|^n + |y/b|^n = 1` is sampled parametrically as
//! `x(t) = a * cos(t)^(2/n)`, `y(t) = b * sin(t)^(2/n)` for `t` in
//! `[0, pi/2]`.  The transcendental factors `cos(t)^(2/n)` and
//! `sin(t)^(2/n)` both lie in `[0, 1]`; the caller evaluates them for the
//! interior sample parameters and hands them in as fixed-point unit
//! samples, one [`Point`] per interior parameter with both coordinates in
//! `[0, SCALE]`.  Everything else — the exact axis endpoints, the scaling
//! by the semi-axes and the assembly of the buffer — is verified here.
//!
//! The endpoints are never put through the power formula: index `0` is
//! forced to exactly `(a, 0)` and the last index to exactly `(0, b)`, so
//! no degenerate evaluation at the axis can leave a gap, however sharp
//! the exponent makes the corner.

use vstd::prelude::*;
use crate::geom::COORD_LIMIT;
use crate::geom::Point;
use crate::geom::SCALE;
use crate::geom::point_in_range;

verus! {

/// A unit sample: both transcendental factors lie in `[0, 1]`, that is
/// in `[0, SCALE]` subunits.
pub open spec fn unit_sample(p: Point) -> bool {
    &&& 0 <= p.x <= SCALE
    &&& 0 <= p.y <= SCALE
}

/// A semi-axis length scaled by a unit factor: `r * u / SCALE`.
pub open spec fn axis_scaled(r: int, u: int) -> int {
    r * u / (SCALE as int)
}

/// What it is to be the quarter buffer for semi-axes `(a, b)` and the
/// interior unit samples `interior`: one point per sample plus the two
/// forced endpoints, the first exactly `(a, 0)`, the last exactly
/// `(0, b)`, and each interior point the samples' factors applied to the
/// two semi-axes.
pub open spec fn is_quarter_buffer(out: Seq<Point>, a: int, b: int, interior: Seq<Point>) -> bool {
    &&& out.len() == interior.len() + 2
    &&& out[0].x == a && out[0].y == 0
    &&& out[out.len() - 1].x == 0 && out[out.len() - 1].y == b
    &&& forall|i: int|
        1 <= i <= interior.len() ==> out[i].x == axis_scaled(a, interior[i - 1].x as int)
            && out[i].y == axis_scaled(b, interior[i - 1].y as int)
}

/// Generate the quarter buffer: `steps + 1` points from `(a, 0)` to
/// `(0, b)`, the interior scaled from the given unit samples.
///
/// The output is a function of the arguments alone — the contract pins
/// every coordinate — so two calls on equal arguments return equal
/// buffers (see [`lemma_generate_deterministic`]).
pub fn generate(a: i64, b: i64, steps: usize, interior: &Vec<Point>) -> (out: Vec<Point>)
    requires
        0 < a <= COORD_LIMIT,
        0 < b <= COORD_LIMIT,
        1 <= steps,
        interior@.len() == steps - 1,
        forall|i: int| 0 <= i < interior@.len() ==> unit_sample(interior@[i]),
    ensures
        out@.len() == steps + 1,
        is_quarter_buffer(out@, a as int, b as int, interior@),
        forall|i: int|
            0 <= i < out@.len() ==> point_in_range(out@[i]) && out@[i].x >= 0 && out@[i].y >= 0,
{
    let mut out: Vec<Point> = Vec::new();
    out.push(Point { x: a, y: 0 });
    let mut i: usize = 0;
    while i < interior.len()
        invariant
            0 < a <= COORD_LIMIT,
            0 < b <= COORD_LIMIT,
            0 <= i <= interior@.len(),
            forall|j: int| 0 <= j < interior@.len() ==> unit_sample(interior@[j]),
            out@.len() == i + 1,
            out@[0].x == a && out@[0].y == 0,
            forall|j: int|
                1 <= j <= i ==> out@[j].x == axis_scaled(a as int, interior@[j - 1].x as int)
                    && out@[j].y == axis_scaled(b as int, interior@[j - 1].y as int),
            forall|j: int|
                0 <= j < out@.len() ==> point_in_range(out@[j]) && out@[j].x >= 0 && out@[j].y
                    >= 0,
        decreases interior@.len() - i,
    {
        let u = interior[i];
        let px: i64 = axis_mul(a, u.x);
        let py: i64 = axis_mul(b, u.y);
        out.push(Point { x: px, y: py });
        i = i + 1;
    }
    out.push(Point { x: 0, y: b });
    out
}

/// Scale the semi-axis `r` by the unit factor `u`; the result stays in
/// `[0, r]`.
fn axis_mul(r: i64, u: i64) -> (v: i64)
    requires
        0 < r <= COORD_LIMIT,
        0 <= u <= SCALE,
    ensures
        v == axis_scaled(r as int, u as int),
        0 <= v <= r,
{
    proof {
        lemma_axis_scaled_bounded(r as int, u as int);
    }
    r * u / SCALE
}

/// With `0 <= u <= SCALE`, scaling `r > 0` by `u` lands in `[0, r]`, and
/// the product itself stays far from overflow.
proof fn lemma_axis_scaled_bounded(r: int, u: int)
    requires
        0 < r <= COORD_LIMIT,
        0 <= u <= SCALE,
    ensures
        0 <= r * u <= COORD_LIMIT * (SCALE as int),
        0 <= axis_scaled(r, u) <= r,
{
    assert(0 <= r * u <= COORD_LIMIT * (SCALE as int)) by (nonlinear_arith)
        requires 0 < r <= COORD_LIMIT && 0 <= u <= SCALE;
    assert(r * u <= r * (SCALE as int)) by (nonlinear_arith)
        requires 0 < r && u <= SCALE;
    assert(0 <= r * u / (SCALE as int)) by (nonlinear_arith)
        requires 0 <= r * u;
    assert(r * u / (SCALE as int) <= r * (SCALE as int) / (SCALE as int)) by (nonlinear_arith)
        requires r * u <= r * (SCALE as int);
    assert(r * (SCALE as int) / (SCALE as int) == r) by (nonlinear_arith);
}

/// Determinism: the quarter buffer is a function of the semi-axes and
/// the interior samples alone — any two sequences that both satisfy
/// [`is_quarter_buffer`] for the same arguments are equal.
pub proof fn lemma_generate_deterministic(
    out1: Seq<Point>,
    out2: Seq<Point>,
    a: int,
    b: int,
    interior: Seq<Point>,
)
    requires
        is_quarter_buffer(out1, a, b, interior),
        is_quarter_buffer(out2, a, b, interior),
    ensures
        out1 == out2,
{
    assert forall|i: int| 0 <= i < out1.len() implies out1[i] == out2[i] by {
        if i == 0 {
            assert(out1[0].x == a && out2[0].x == a);
        } else if i == out1.len() - 1 {
            assert(out1[i].y == b && out2[i].y == b);
        } else {
            assert(out1[i].x == axis_scaled(a, interior[i - 1].x as int));
        }
    }
    assert(out1 =~= out2);
}

} // verus!
