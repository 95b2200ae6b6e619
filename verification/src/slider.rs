//! Draggable slider widgets.
//!
//! A slider owns a label, a current value, a numeric range and a
//! screen-space track rectangle, all in fixed-point subunits
//! (`geom::SCALE` subunits to the unit).  Pointer input is folded in by
//! [`Slider::update`]; the positions a renderer needs to draw the widget
//! come from [`Slider::handle_x`].  The change test is exact integer
//! inequality: with fixed-point values there is no floating-point jitter
//! to guard against, so no epsilon is needed.

use vstd::prelude::*;
use crate::geom::COORD_LIMIT;
use crate::geom::SCALE;
use crate::geom::in_range;

verus! {

/// Width of a slider's track, in subunits.
pub const TRACK_WIDTH: i64 = 200 * SCALE;

/// Height of a slider's track rectangle, in subunits.
pub const TRACK_HEIGHT: i64 = 20 * SCALE;

/// Vertical margin added above and below the track when testing whether
/// the pointer grabs the slider, in subunits.
pub const GRAB_MARGIN: i64 = 10 * SCALE;

/// A screen-space rectangle, in subunits.
#[derive(Clone, Copy, Debug, PartialEq, Eq, Structural)]
pub struct SliderRect {
    pub x: i64,
    pub y: i64,
    pub w: i64,
    pub h: i64,
}

/// A draggable slider: label, current value, range, and track rectangle.
#[derive(Debug)]
pub struct Slider {
    pub label: String,
    pub value: i64,
    pub min: i64,
    pub max: i64,
    pub rect: SliderRect,
}

/// The value a drag to pointer abscissa `px` selects on a track starting
/// at `x`, `w` wide, over the range `min..=max`: the fraction of the way
/// along the track, clamped to `[0, 1]`, mapped affinely onto the range.
/// A pointer left of the track selects `min`, one right of it `max`.
pub open spec fn spec_drag_value(min: int, max: int, x: int, w: int, px: int) -> int {
    let dx = if px <= x {
        0
    } else if px >= x + w {
        w
    } else {
        px - x
    };
    min + dx * (max - min) / w
}

impl Slider {
    /// A well-formed slider: a genuine range, the value inside it, and
    /// every quantity small enough that the drag arithmetic stays far
    /// from `i64` overflow.
    pub open spec fn wf(self) -> bool {
        &&& -COORD_LIMIT <= self.min < self.max <= COORD_LIMIT
        &&& self.min <= self.value <= self.max
        &&& 0 < self.rect.w <= COORD_LIMIT
        &&& in_range(self.rect.x as int)
        &&& in_range(self.rect.y as int)
        &&& 0 <= self.rect.h <= COORD_LIMIT
    }

    /// The pointer at `(px, py)` grabs this slider: horizontally over the
    /// track, vertically within the track extended by `GRAB_MARGIN` on
    /// both sides (all edges inclusive).
    pub open spec fn grabs(self, px: int, py: int) -> bool {
        &&& self.rect.x <= px <= self.rect.x + self.rect.w
        &&& self.rect.y - GRAB_MARGIN <= py <= self.rect.y + self.rect.h + GRAB_MARGIN
    }

    /// The slider as it stands after one pointer update: if the button is
    /// held and the pointer grabs the slider, the value becomes the
    /// dragged value; otherwise nothing changes.
    pub open spec fn after_update(self, px: int, py: int, pressed: bool) -> Slider {
        if pressed && self.grabs(px, py) {
            Slider {
                label: self.label,
                value: spec_drag_value(self.min as int, self.max as int, self.rect.x as int, self.rect.w as int, px) as i64,
                min: self.min,
                max: self.max,
                rect: self.rect,
            }
        } else {
            self
        }
    }

    /// Whether one pointer update changes the slider's value.
    pub open spec fn update_changes(self, px: int, py: int, pressed: bool) -> bool {
        self.after_update(px, py, pressed).value != self.value
    }

    /// Build a slider with the standard track size at `(x, y)`.
    ///
    /// A degenerate range (`min >= max`) is a construction-time contract
    /// violation and is ruled out here, never handled later.
    pub fn new(label: String, value: i64, min: i64, max: i64, x: i64, y: i64) -> (s: Slider)
        requires
            -COORD_LIMIT <= min < max <= COORD_LIMIT,
            min <= value <= max,
            in_range(x as int),
            in_range(y as int),
        ensures
            s.label == label,
            s.value == value,
            s.min == min,
            s.max == max,
            s.rect == (SliderRect { x, y, w: TRACK_WIDTH, h: TRACK_HEIGHT }),
            s.wf(),
    {
        Slider { label, value, min, max, rect: SliderRect { x, y, w: TRACK_WIDTH, h: TRACK_HEIGHT } }
    }

    /// Fold one frame's pointer state into the slider.
    ///
    /// Returns whether the value changed.  While the button is held and
    /// the pointer grabs the slider, the clamped fraction of the way
    /// along the track picks the new value, so a drag far off the track's
    /// end still yields the exact extreme of the range; otherwise the
    /// value is left alone.
    pub fn update(&mut self, px: i64, py: i64, pressed: bool) -> (changed: bool)
        requires
            old(self).wf(),
        ensures
            *final(self) == old(self).after_update(px as int, py as int, pressed),
            changed == old(self).update_changes(px as int, py as int, pressed),
            final(self).wf(),
    {
        let grabbed: bool = px >= self.rect.x && px <= self.rect.x + self.rect.w
            && py >= self.rect.y - GRAB_MARGIN && py <= self.rect.y + self.rect.h + GRAB_MARGIN;
        if pressed && grabbed {
            let old_value: i64 = self.value;
            self.value = drag_value(self.min, self.max, self.rect.x, self.rect.w, px);
            self.value != old_value
        } else {
            false
        }
    }

    /// Abscissa of the handle marking the current value: the value's
    /// fraction of the range, mapped along the track.
    pub fn handle_x(&self) -> (hx: i64)
        requires
            self.wf(),
        ensures
            hx == self.rect.x + (self.value - self.min) * self.rect.w / (self.max - self.min),
            self.rect.x <= hx <= self.rect.x + self.rect.w,
    {
        proof {
            lemma_mul_bounded(
                (self.value - self.min) as int,
                self.rect.w as int,
                2 * COORD_LIMIT as int,
                COORD_LIMIT as int,
            );
        }
        let num: i64 = (self.value - self.min) * self.rect.w;
        let off: i64 = num / (self.max - self.min);
        proof {
            lemma_ratio_bounded(
                (self.value - self.min) as int,
                (self.max - self.min) as int,
                self.rect.w as int,
            );
        }
        self.rect.x + off
    }
}

/// The dragged value, as [`spec_drag_value`] states it.  Always lands
/// inside `[min, max]`, with the track's ends mapped exactly onto the
/// range's ends.
pub fn drag_value(min: i64, max: i64, x: i64, w: i64, px: i64) -> (v: i64)
    requires
        -COORD_LIMIT <= min < max <= COORD_LIMIT,
        0 < w <= COORD_LIMIT,
        in_range(x as int),
    ensures
        v == spec_drag_value(min as int, max as int, x as int, w as int, px as int),
        min <= v <= max,
{
    let dx: i64 = if px <= x {
        0
    } else if px >= x + w {
        w
    } else {
        px - x
    };
    proof {
        lemma_mul_bounded(dx as int, (max - min) as int, COORD_LIMIT as int, 2 * COORD_LIMIT as int);
    }
    let num: i64 = dx * (max - min);
    let off: i64 = num / w;
    proof {
        lemma_ratio_bounded(dx as int, w as int, (max - min) as int);
    }
    min + off
}

/// A product of nonnegative factors stays under the product of their
/// bounds.
proof fn lemma_mul_bounded(a: int, b: int, ca: int, cb: int)
    requires
        0 <= a <= ca,
        0 <= b <= cb,
    ensures
        0 <= a * b <= ca * cb,
{
    assert(0 <= a * b && a * b <= ca * cb) by (nonlinear_arith)
        requires 0 <= a <= ca && 0 <= b <= cb;
}

/// With `0 <= dx <= w` and `0 <= d`, the scaled ratio `dx * d / w` lies
/// in `[0, d]`.
proof fn lemma_ratio_bounded(dx: int, w: int, d: int)
    requires
        0 <= dx <= w,
        0 < w,
        0 <= d,
    ensures
        0 <= dx * d / w <= d,
{
    assert(0 <= dx * d) by (nonlinear_arith)
        requires 0 <= dx && 0 <= d;
    assert(dx * d <= w * d) by (nonlinear_arith)
        requires dx <= w && 0 <= d;
    assert(0 <= dx * d / w) by (nonlinear_arith)
        requires 0 <= dx * d && 0 < w;
    assert(dx * d / w <= w * d / w) by (nonlinear_arith)
        requires dx * d <= w * d && 0 < w;
    assert(w * d / w == d) by (nonlinear_arith)
        requires 0 < w;
}

/// Drag clamping: a pointer at or left of the track's start selects
/// exactly `min`; one at or right of its end selects exactly `max`.
pub proof fn lemma_drag_clamp(min: int, max: int, x: int, w: int, px: int)
    requires
        min < max,
        0 < w,
    ensures
        px <= x ==> spec_drag_value(min, max, x, w, px) == min,
        px >= x + w ==> spec_drag_value(min, max, x, w, px) == max,
{
    assert(0 * (max - min) == 0) by (nonlinear_arith);
    assert(0int / w == 0) by (nonlinear_arith)
        requires 0 < w;
    assert(w * (max - min) / w == max - min) by (nonlinear_arith)
        requires 0 < w;
}

/// Drag midpoint: on a track of even width, the pointer halfway along
/// selects the value halfway through the range (to the floor, when the
/// range's width is odd).
pub proof fn lemma_drag_midpoint(min: int, max: int, x: int, w: int)
    requires
        min < max,
        0 < w,
        w % 2 == 0,
    ensures
        spec_drag_value(min, max, x, w, x + w / 2) == min + (max - min) / 2,
{
    let m = w / 2;
    let d = max - min;
    assert(2 * m == w);
    assert(0 < m && m < w);
    assert(m * d / (2 * m) == d / 2) by (nonlinear_arith)
        requires 0 < m && 0 < d;
}

} // verus!
