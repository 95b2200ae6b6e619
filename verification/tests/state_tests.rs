//! Tests for the frame state: startup values, the dirty-flag cache and
//! the fill-mode toggle.

use squircle::geom::SCALE;
use squircle::render::DrawMode;
use squircle::slider::GRAB_MARGIN;
use squircle::state::AppState;
use squircle::state::PointerState;

const SCREEN_W: i64 = 800 * SCALE;

fn released() -> PointerState {
    PointerState { x: 0, y: 0, pressed: false }
}

/// A pointer dragging the slider whose track top-left corner sits at
/// `(20 * SCALE, y)`, at `frac` thousandths of the way along the track.
fn drag_at(y: i64, frac: i64) -> PointerState {
    PointerState { x: 20 * SCALE + 200 * frac, y, pressed: true }
}

#[test]
fn startup_state_matches_the_layout() {
    let s = AppState::new(SCREEN_W);
    assert!(s.geometry_stale);
    assert!(!s.fill);
    assert_eq!(s.semi_major.value, SCREEN_W / 4);
    assert_eq!(s.semi_major.max, SCREEN_W);
    assert_eq!(s.roundedness.value, 4 * SCALE);
    assert_eq!(s.roundedness.min, SCALE / 10);
    assert_eq!(s.thickness.value, 2 * SCALE);
    assert_eq!(s.steps.value, 25 * SCALE);
    assert_eq!(s.rotation.value, 0);
    assert_eq!(s.rotation.max, 180 * SCALE);
    assert_eq!(s.step_count(), 25);
}

#[test]
fn first_frame_regenerates_even_untouched() {
    let mut s = AppState::new(SCREEN_W);
    let d = s.process_input(released(), false);
    assert!(d.regenerate);
    s.mark_regenerated();
    let after = s.process_input(released(), false);
    assert!(!after.regenerate);
}

#[test]
fn thickness_and_rotation_do_not_regenerate() {
    let mut s = AppState::new(SCREEN_W);
    s.process_input(released(), false);
    s.mark_regenerated();
    // Drag the thickness slider (track at y == 160 * SCALE).
    let d_thickness = s.process_input(drag_at(160 * SCALE, 500), false);
    assert!(!d_thickness.regenerate);
    assert_ne!(s.thickness.value, 2 * SCALE);
    // Drag the rotation slider (track at y == 240 * SCALE).
    let d_rotation = s.process_input(drag_at(240 * SCALE, 500), false);
    assert!(!d_rotation.regenerate);
    assert!(d_rotation.rotation_changed);
    assert_ne!(s.rotation.value, 0);
}

#[test]
fn geometry_slider_regenerates_exactly_once() {
    let mut s = AppState::new(SCREEN_W);
    s.process_input(released(), false);
    s.mark_regenerated();
    // Drag the roundedness slider (track at y == 120 * SCALE).
    let d = s.process_input(drag_at(120 * SCALE, 750), false);
    assert!(d.regenerate);
    s.mark_regenerated();
    // Pointer still held at the same spot: the value no longer moves,
    // so no second regeneration.
    let d_second = s.process_input(drag_at(120 * SCALE, 750), false);
    assert!(!d_second.regenerate);
}

#[test]
fn stale_flag_sticks_until_regeneration_is_recorded() {
    let mut s = AppState::new(SCREEN_W);
    // Drag the steps slider (track at y == 200 * SCALE) on the first
    // frame; the flag was already stale and must stay so.
    let d = s.process_input(drag_at(200 * SCALE, 900), false);
    assert!(d.regenerate);
    // Nothing recorded: the next frame still wants regeneration.
    let d_next = s.process_input(released(), false);
    assert!(d_next.regenerate);
    s.mark_regenerated();
    assert!(!s.needs_regeneration());
}

#[test]
fn grab_margin_reaches_vertically_not_horizontally() {
    let mut s = AppState::new(SCREEN_W);
    s.process_input(released(), false);
    s.mark_regenerated();
    // Above the semi-major track (y == 40 * SCALE) but inside the
    // margin: the drag lands.
    let d = s.process_input(
        PointerState { x: 20 * SCALE + 100 * SCALE, y: 40 * SCALE - GRAB_MARGIN, pressed: true },
        false,
    );
    assert!(d.regenerate);
}

#[test]
fn space_toggles_fill_mode() {
    let mut s = AppState::new(SCREEN_W);
    assert_eq!(s.draw_mode(), DrawMode::Outline(2 * SCALE));
    s.process_input(released(), true);
    assert!(s.fill);
    assert_eq!(s.draw_mode(), DrawMode::Fill);
    s.process_input(released(), true);
    assert!(!s.fill);
    assert_eq!(s.draw_mode(), DrawMode::Outline(2 * SCALE));
}

#[test]
fn step_count_cuts_the_slider_value_to_whole_steps() {
    let mut s = AppState::new(SCREEN_W);
    assert_eq!(s.step_count(), 25);
    // Drag the steps slider to its maximum (50 whole steps).
    s.process_input(drag_at(200 * SCALE, 1000), false);
    assert_eq!(s.steps.value, 50 * SCALE);
    assert_eq!(s.step_count(), 50);
    // And to its minimum (one step).
    s.process_input(drag_at(200 * SCALE, 0), false);
    assert_eq!(s.steps.value, SCALE);
    assert_eq!(s.step_count(), 1);
}
