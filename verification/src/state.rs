//! Per-frame application state and the dirty-flag cache.
//!
//! The six sliders, the fill-mode flag and the geometry dirty flag live
//! here.  Each frame the driver folds the pointer state in with
//! [`AppState::process_input`]; the returned directives say whether the
//! quarter buffer must be regenerated (it is stale) and whether the
//! rotation transform must be recomputed.  Only the four
//! geometry-affecting sliders — semi-major axis, semi-minor axis,
//! roundedness and step count — mark the buffer stale; thickness and
//! rotation touch the drawing alone.  The driver performs the outside
//! work (transcendental sampling, drawing) and reports regeneration back
//! with [`AppState::mark_regenerated`], which restores the freshness
//! invariant within the same frame.

use vstd::prelude::*;
use crate::geom::COORD_LIMIT;
use crate::geom::SCALE;
use crate::render::DrawMode;
use crate::render::MAX_STEPS;
use crate::slider::Slider;

verus! {

/// The pointer's state for one frame: position in subunits, and whether
/// the button is held.
#[derive(Clone, Copy, Debug)]
pub struct PointerState {
    pub x: i64,
    pub y: i64,
    pub pressed: bool,
}

/// What the frame driver must do after input processing: regenerate the
/// quarter buffer, and/or recompute the rotation transform.
#[derive(Clone, Copy, Debug, PartialEq, Eq, Structural)]
pub struct FrameDirectives {
    pub regenerate: bool,
    pub rotation_changed: bool,
}

/// The whole mutable state of the application.
#[derive(Debug)]
pub struct AppState {
    pub semi_major: Slider,
    pub semi_minor: Slider,
    pub roundedness: Slider,
    pub thickness: Slider,
    pub steps: Slider,
    pub rotation: Slider,
    /// The dirty flag: true while the quarter buffer no longer matches
    /// the geometry sliders (or has never been generated).
    pub geometry_stale: bool,
    /// Fill mode: triangles fanned from the centre instead of an
    /// outline.
    pub fill: bool,
}

/// The dirty flag after one frame's slider updates: stale stays stale,
/// and any change to a geometry-affecting slider makes it stale.
/// Thickness and rotation are absent on purpose.
pub open spec fn stale_after(
    stale: bool,
    major_changed: bool,
    minor_changed: bool,
    roundedness_changed: bool,
    steps_changed: bool,
) -> bool {
    stale || major_changed || minor_changed || roundedness_changed || steps_changed
}

impl AppState {
    /// Well-formed state: every slider is well-formed and the step
    /// slider's range keeps the step count in `1..=MAX_STEPS` after the
    /// fixed-point value is cut down to whole steps.
    pub open spec fn wf(self) -> bool {
        &&& self.semi_major.wf()
        &&& self.semi_minor.wf()
        &&& self.roundedness.wf()
        &&& self.thickness.wf()
        &&& self.steps.wf()
        &&& self.rotation.wf()
        &&& SCALE <= self.steps.min
        &&& self.steps.max <= (MAX_STEPS as i64) * SCALE
    }

    /// Build the startup state for a screen `screen_w` subunits wide:
    /// the six sliders stacked down the left edge, geometry stale (so
    /// the first frame generates), outline mode.
    pub fn new(screen_w: i64) -> (s: AppState)
        requires
            40 * SCALE <= screen_w <= COORD_LIMIT,
        ensures
            s.wf(),
            s.geometry_stale,
            !s.fill,
            s.semi_major.value == screen_w / 4 && s.semi_major.min == 10 * SCALE
                && s.semi_major.max == screen_w,
            s.semi_minor.value == screen_w / 4 && s.semi_minor.min == 10 * SCALE
                && s.semi_minor.max == screen_w,
            s.roundedness.value == 4 * SCALE && s.roundedness.min == SCALE / 10
                && s.roundedness.max == 12 * SCALE,
            s.thickness.value == 2 * SCALE && s.thickness.min == SCALE / 10
                && s.thickness.max == 40 * SCALE,
            s.steps.value == 25 * SCALE && s.steps.min == SCALE && s.steps.max == 50 * SCALE,
            s.rotation.value == 0 && s.rotation.min == 0 && s.rotation.max == 180 * SCALE,
    {
        let quarter: i64 = screen_w / 4;
        AppState {
            semi_major: Slider::new(
                "Semi-major axis (r_a)".to_string(),
                quarter,
                10 * SCALE,
                screen_w,
                20 * SCALE,
                40 * SCALE,
            ),
            semi_minor: Slider::new(
                "Semi-minor axis (r_b)".to_string(),
                quarter,
                10 * SCALE,
                screen_w,
                20 * SCALE,
                80 * SCALE,
            ),
            roundedness: Slider::new(
                "Roundedness (n)".to_string(),
                4 * SCALE,
                SCALE / 10,
                12 * SCALE,
                20 * SCALE,
                120 * SCALE,
            ),
            thickness: Slider::new(
                "Thickness".to_string(),
                2 * SCALE,
                SCALE / 10,
                40 * SCALE,
                20 * SCALE,
                160 * SCALE,
            ),
            steps: Slider::new(
                "Steps".to_string(),
                25 * SCALE,
                SCALE,
                50 * SCALE,
                20 * SCALE,
                200 * SCALE,
            ),
            rotation: Slider::new(
                "Rotation".to_string(),
                0,
                0,
                180 * SCALE,
                20 * SCALE,
                240 * SCALE,
            ),
            geometry_stale: true,
            fill: false,
        }
    }

    /// Fold one frame's input into the state: update every slider from
    /// the pointer, mark the geometry stale if any geometry-affecting
    /// slider changed, and toggle fill mode on the key press.  Returns
    /// the work the driver owes this frame.
    pub fn process_input(&mut self, pointer: PointerState, toggle_pressed: bool) -> (d:
        FrameDirectives)
        requires
            old(self).wf(),
        ensures
            final(self).wf(),
            final(self).semi_major == old(self).semi_major.after_update(
                pointer.x as int,
                pointer.y as int,
                pointer.pressed,
            ),
            final(self).semi_minor == old(self).semi_minor.after_update(
                pointer.x as int,
                pointer.y as int,
                pointer.pressed,
            ),
            final(self).roundedness == old(self).roundedness.after_update(
                pointer.x as int,
                pointer.y as int,
                pointer.pressed,
            ),
            final(self).thickness == old(self).thickness.after_update(
                pointer.x as int,
                pointer.y as int,
                pointer.pressed,
            ),
            final(self).steps == old(self).steps.after_update(
                pointer.x as int,
                pointer.y as int,
                pointer.pressed,
            ),
            final(self).rotation == old(self).rotation.after_update(
                pointer.x as int,
                pointer.y as int,
                pointer.pressed,
            ),
            final(self).geometry_stale == stale_after(
                old(self).geometry_stale,
                old(self).semi_major.update_changes(
                    pointer.x as int,
                    pointer.y as int,
                    pointer.pressed,
                ),
                old(self).semi_minor.update_changes(
                    pointer.x as int,
                    pointer.y as int,
                    pointer.pressed,
                ),
                old(self).roundedness.update_changes(
                    pointer.x as int,
                    pointer.y as int,
                    pointer.pressed,
                ),
                old(self).steps.update_changes(
                    pointer.x as int,
                    pointer.y as int,
                    pointer.pressed,
                ),
            ),
            final(self).fill == (old(self).fill != toggle_pressed),
            d.regenerate == final(self).geometry_stale,
            d.rotation_changed == old(self).rotation.update_changes(
                pointer.x as int,
                pointer.y as int,
                pointer.pressed,
            ),
    {
        let major_changed: bool = self.semi_major.update(pointer.x, pointer.y, pointer.pressed);
        let minor_changed: bool = self.semi_minor.update(pointer.x, pointer.y, pointer.pressed);
        let roundedness_changed: bool = self.roundedness.update(
            pointer.x,
            pointer.y,
            pointer.pressed,
        );
        let steps_changed: bool = self.steps.update(pointer.x, pointer.y, pointer.pressed);
        self.thickness.update(pointer.x, pointer.y, pointer.pressed);
        let rotation_changed: bool = self.rotation.update(pointer.x, pointer.y, pointer.pressed);
        self.geometry_stale = self.geometry_stale || major_changed || minor_changed
            || roundedness_changed || steps_changed;
        if toggle_pressed {
            self.fill = !self.fill;
        }
        FrameDirectives { regenerate: self.geometry_stale, rotation_changed }
    }

    /// Whether the quarter buffer must be regenerated before drawing.
    pub fn needs_regeneration(&self) -> (stale: bool)
        ensures
            stale == self.geometry_stale,
    {
        self.geometry_stale
    }

    /// Record that the quarter buffer was regenerated from the current
    /// slider values: the geometry is fresh again; nothing else moves.
    pub fn mark_regenerated(&mut self)
        ensures
            !final(self).geometry_stale,
            final(self).semi_major == old(self).semi_major,
            final(self).semi_minor == old(self).semi_minor,
            final(self).roundedness == old(self).roundedness,
            final(self).thickness == old(self).thickness,
            final(self).steps == old(self).steps,
            final(self).rotation == old(self).rotation,
            final(self).fill == old(self).fill,
            old(self).wf() ==> final(self).wf(),
    {
        self.geometry_stale = false;
    }

    /// The step count the geometry sliders call for: the step slider's
    /// fixed-point value cut down to whole steps.  Always in
    /// `1..=MAX_STEPS`.
    pub fn step_count(&self) -> (steps: usize)
        requires
            self.wf(),
        ensures
            steps == self.steps.value / SCALE,
            1 <= steps <= MAX_STEPS,
    {
        let whole: i64 = self.steps.value / SCALE;
        proof {
            assert(whole >= 1) by (nonlinear_arith)
                requires
                    whole == self.steps.value / SCALE,
                    self.steps.value >= SCALE,
                    SCALE == 1000,
            ;
            assert(whole <= MAX_STEPS) by (nonlinear_arith)
                requires
                    whole == self.steps.value / SCALE,
                    0 < self.steps.value <= (MAX_STEPS as i64) * SCALE,
                    SCALE == 1000,
            ;
        }
        whole as usize
    }

    /// How this frame is to be drawn: triangles fanned from the centre
    /// in fill mode, an outline of the thickness slider's value
    /// otherwise.
    pub fn draw_mode(&self) -> (mode: DrawMode)
        ensures
            self.fill ==> mode == DrawMode::Fill,
            !self.fill ==> mode == DrawMode::Outline(self.thickness.value),
    {
        if self.fill {
            DrawMode::Fill
        } else {
            DrawMode::Outline(self.thickness.value)
        }
    }
}

/// Dirty-flag minimality, first half: on a fresh state, a frame in which
/// no geometry-affecting slider changes — however the thickness and
/// rotation sliders move — leaves the geometry fresh and triggers no
/// regeneration.
pub proof fn lemma_dirty_flag_minimality(
    major_changed: bool,
    minor_changed: bool,
    roundedness_changed: bool,
    steps_changed: bool,
)
    requires
        !major_changed,
        !minor_changed,
        !roundedness_changed,
        !steps_changed,
    ensures
        !stale_after(false, major_changed, minor_changed, roundedness_changed, steps_changed),
{
}

/// Dirty-flag minimality, second half: on a fresh state, a frame in
/// which a geometry-affecting slider changes triggers regeneration, and
/// once the regeneration is recorded, a following frame with no
/// geometry change triggers none — exactly one regeneration.
pub proof fn lemma_regenerate_exactly_once(
    first_major: bool,
    first_minor: bool,
    first_roundedness: bool,
    first_steps: bool,
    second_major: bool,
    second_minor: bool,
    second_roundedness: bool,
    second_steps: bool,
)
    requires
        first_major || first_minor || first_roundedness || first_steps,
        !second_major && !second_minor && !second_roundedness && !second_steps,
    ensures
        stale_after(false, first_major, first_minor, first_roundedness, first_steps),
        !stale_after(false, second_major, second_minor, second_roundedness, second_steps),
{
}

} // verus!
