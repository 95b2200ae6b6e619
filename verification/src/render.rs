//! The quadrant renderer.
//!
//! The quarter buffer covers one quadrant of the curve; the other three
//! are its mirror images.  For each of the four sign pairs of the
//! quadrant table, each consecutive pair of buffer points is mirrored,
//! rotated and translated to the centre, and emitted as one segment —
//! `4 * steps` segments for the whole closed curve.  The drawing layer
//! decides what a segment becomes (a line of some thickness, or a
//! triangle fanned from the centre); the renderer is agnostic to that.

use vstd::prelude::*;
use crate::geom::Point;
use crate::geom::Rotation;
use crate::geom::SCALE;
use crate::geom::mirror_x;
use crate::geom::mirror_y;
use crate::geom::point_in_range;
use crate::geom::transform_point;
use crate::geom::transform_x;
use crate::geom::transform_y;
use crate::geom::lemma_rotation_identity;

verus! {

/// One drawn segment, both endpoints already in screen space.
#[derive(Clone, Copy, Debug, PartialEq, Eq, Structural)]
pub struct Segment {
    pub a: Point,
    pub b: Point,
}

/// How the segments are to be drawn: as an outline of the given
/// thickness (in subunits), or as triangles fanned from the centre.
#[derive(Clone, Copy, Debug, PartialEq, Eq, Structural)]
pub enum DrawMode {
    Outline(i64),
    Fill,
}

/// The quadrant sign table: the reflections that rebuild the four
/// quadrants from the quarter buffer, in drawing order.
pub open spec fn spec_signs() -> Seq<(i64, i64)> {
    seq![(1i64, 1i64), (-1i64, 1i64), (-1i64, -1i64), (1i64, -1i64)]
}

/// Largest admissible step count; keeps the loop counters and the
/// `4 * steps` segment count far inside `usize`.
pub const MAX_STEPS: usize = 1_000_000;

/// The sign table as a vector, exactly [`spec_signs`].
pub fn quadrant_signs() -> (signs: Vec<(i64, i64)>)
    ensures
        signs@ == spec_signs(),
{
    let mut signs: Vec<(i64, i64)> = Vec::new();
    signs.push((1, 1));
    signs.push((-1, 1));
    signs.push((-1, -1));
    signs.push((1, -1));
    proof {
        assert(signs@ =~= spec_signs());
    }
    signs
}

/// `s` joins the transforms of `p_prev` and `p_curr` under the sign pair
/// `(sx, sy)`, the rotation `rot` and the centre `c`.
pub open spec fn seg_matches(
    s: Segment,
    p_prev: Point,
    p_curr: Point,
    sx: int,
    sy: int,
    rot: Rotation,
    c: Point,
) -> bool {
    &&& s.a.x == transform_x(p_prev, sx, sy, rot, c)
    &&& s.a.y == transform_y(p_prev, sx, sy, rot, c)
    &&& s.b.x == transform_x(p_curr, sx, sy, rot, c)
    &&& s.b.y == transform_y(p_curr, sx, sy, rot, c)
}

/// Produce the full curve's segments from the quarter buffer: for each
/// quadrant of the sign table in order, the consecutive buffer pairs
/// mirrored, rotated by `rot` and translated to `c` — `4 * steps`
/// segments in all.
#[verifier::rlimit(60)]
pub fn render_quadrants(c: Point, steps: usize, buffer: &Vec<Point>, rot: &Rotation) -> (segs: Vec<
    Segment,
>)
    requires
        1 <= steps <= MAX_STEPS,
        buffer@.len() == steps + 1,
        forall|i: int| 0 <= i < buffer@.len() ==> point_in_range(buffer@[i]),
        rot.wf(),
        point_in_range(c),
    ensures
        segs@.len() == 4 * steps,
        forall|q: int, i: int|
            #![trigger spec_signs()[q], buffer@[i]]
            0 <= q < 4 && 1 <= i <= steps ==> seg_matches(
                segs@[q * steps + i - 1],
                buffer@[i - 1],
                buffer@[i],
                spec_signs()[q].0 as int,
                spec_signs()[q].1 as int,
                *rot,
                c,
            ),
{
    let signs = quadrant_signs();
    let mut segs: Vec<Segment> = Vec::new();
    let mut q: usize = 0;
    while q < 4
        invariant
            1 <= steps <= MAX_STEPS,
            buffer@.len() == steps + 1,
            forall|i: int| 0 <= i < buffer@.len() ==> point_in_range(buffer@[i]),
            rot.wf(),
            point_in_range(c),
            signs@ == spec_signs(),
            0 <= q <= 4,
            segs@.len() == q * steps,
            forall|qq: int, i: int|
                #![trigger spec_signs()[qq], buffer@[i]]
                0 <= qq < q && 1 <= i <= steps ==> seg_matches(
                    segs@[qq * steps + i - 1],
                    buffer@[i - 1],
                    buffer@[i],
                    spec_signs()[qq].0 as int,
                    spec_signs()[qq].1 as int,
                    *rot,
                    c,
                ),
        decreases 4 - q,
    {
        let (sx, sy) = signs[q];
        assert(sx == 1 || sx == -1);
        assert(sy == 1 || sy == -1);
        let mut prev: Point = transform_point(buffer[0], sx, sy, rot, c);
        let mut i: usize = 1;
        while i <= steps
            invariant
                1 <= steps <= MAX_STEPS,
                buffer@.len() == steps + 1,
                forall|k: int| 0 <= k < buffer@.len() ==> point_in_range(buffer@[k]),
                rot.wf(),
                point_in_range(c),
                signs@ == spec_signs(),
                0 <= q < 4,
                (sx, sy) == spec_signs()[q as int],
                1 <= i <= steps + 1,
                segs@.len() == q * steps + i - 1,
                prev.x == transform_x(buffer@[i - 1], sx as int, sy as int, *rot, c),
                prev.y == transform_y(buffer@[i - 1], sx as int, sy as int, *rot, c),
                forall|qq: int, k: int|
                    #![trigger spec_signs()[qq], buffer@[k]]
                    0 <= qq < q && 1 <= k <= steps ==> seg_matches(
                        segs@[qq * steps + k - 1],
                        buffer@[k - 1],
                        buffer@[k],
                        spec_signs()[qq].0 as int,
                        spec_signs()[qq].1 as int,
                        *rot,
                        c,
                    ),
                forall|k: int|
                    #![trigger buffer@[k]]
                    1 <= k < i ==> seg_matches(
                        segs@[q * steps + k - 1],
                        buffer@[k - 1],
                        buffer@[k],
                        sx as int,
                        sy as int,
                        *rot,
                        c,
                    ),
            decreases steps + 1 - i,
        {
            let curr: Point = transform_point(buffer[i], sx, sy, rot, c);
            proof {
                assert forall|qq: int, k: int|
                    #![trigger spec_signs()[qq], buffer@[k]]
                    0 <= qq < q && 1 <= k <= steps implies qq * steps + k - 1 < q * steps + i
                    - 1 by {
                    vstd::arithmetic::mul::lemma_mul_inequality(qq + 1, q as int, steps as int);
                    vstd::arithmetic::mul::lemma_mul_is_distributive_add_other_way(
                        steps as int,
                        qq,
                        1,
                    );
                }
            }
            segs.push(Segment { a: prev, b: curr });
            prev = curr;
            i = i + 1;
        }
        proof {
            vstd::arithmetic::mul::lemma_mul_is_distributive_add_other_way(
                steps as int,
                q as int,
                1,
            );
            assert(segs@.len() == (q + 1) * steps);
        }
        q = q + 1;
    }
    segs
}

/// Four-fold symmetry: applied to a quarter-buffer point `(x, y)`, the
/// four sign pairs of the quadrant table yield, before any rotation,
/// exactly `(x, y)`, `(-x, y)`, `(-x, -y)` and `(x, -y)`.
pub proof fn lemma_sign_table_symmetry(p: Point)
    ensures
        mirror_x(p, spec_signs()[0].0 as int) == p.x && mirror_y(p, spec_signs()[0].1 as int)
            == p.y,
        mirror_x(p, spec_signs()[1].0 as int) == -p.x && mirror_y(p, spec_signs()[1].1 as int)
            == p.y,
        mirror_x(p, spec_signs()[2].0 as int) == -p.x && mirror_y(p, spec_signs()[2].1 as int)
            == -p.y,
        mirror_x(p, spec_signs()[3].0 as int) == p.x && mirror_y(p, spec_signs()[3].1 as int)
            == -p.y,
{
    assert(spec_signs()[0] == (1i64, 1i64));
    assert(spec_signs()[1] == (-1i64, 1i64));
    assert(spec_signs()[2] == (-1i64, -1i64));
    assert(spec_signs()[3] == (1i64, -1i64));
}

/// Rotation identity at the renderer: under the zero rotation
/// `(sin, cos) == (0, SCALE)`, every rendered point is exactly the
/// unrotated mirrored point translated to the centre, for each quadrant
/// of the sign table.
pub proof fn lemma_render_identity(p: Point, q: int, c: Point)
    requires
        0 <= q < 4,
    ensures
        transform_x(p, spec_signs()[q].0 as int, spec_signs()[q].1 as int, (Rotation { sin: 0, cos: SCALE }), c)
            == mirror_x(p, spec_signs()[q].0 as int) + c.x,
        transform_y(p, spec_signs()[q].0 as int, spec_signs()[q].1 as int, (Rotation { sin: 0, cos: SCALE }), c)
            == mirror_y(p, spec_signs()[q].1 as int) + c.y,
{
    lemma_rotation_identity(p, spec_signs()[q].0 as int, spec_signs()[q].1 as int, c);
}

} // verus!
