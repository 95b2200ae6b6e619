//! Tests for the slider widget: construction, drag clamping, and the
//! change signal.

use squircle::slider::Slider;
use squircle::slider::drag_value;
use squircle::slider::GRAB_MARGIN;
use squircle::slider::TRACK_WIDTH;
use squircle::slider::TRACK_HEIGHT;
use squircle::geom::SCALE;

fn test_slider() -> Slider {
    Slider::new("Roundedness (n)".to_string(), 4 * SCALE, SCALE / 10, 12 * SCALE, 20 * SCALE, 120 * SCALE)
}

#[test]
fn new_slider_holds_its_arguments() {
    let s = test_slider();
    assert_eq!(s.label, "Roundedness (n)");
    assert_eq!(s.value, 4 * SCALE);
    assert_eq!(s.min, SCALE / 10);
    assert_eq!(s.max, 12 * SCALE);
    assert_eq!(s.rect.x, 20 * SCALE);
    assert_eq!(s.rect.y, 120 * SCALE);
    assert_eq!(s.rect.w, TRACK_WIDTH);
    assert_eq!(s.rect.h, TRACK_HEIGHT);
}

#[test]
fn drag_left_of_track_selects_min() {
    let v = drag_value(-5 * SCALE, 5 * SCALE, 20 * SCALE, TRACK_WIDTH, 20 * SCALE - 1);
    assert_eq!(v, -5 * SCALE);
    let at_start = drag_value(-5 * SCALE, 5 * SCALE, 20 * SCALE, TRACK_WIDTH, 20 * SCALE);
    assert_eq!(at_start, -5 * SCALE);
}

#[test]
fn drag_right_of_track_selects_max() {
    let track_end = 20 * SCALE + TRACK_WIDTH;
    let v = drag_value(-5 * SCALE, 5 * SCALE, 20 * SCALE, TRACK_WIDTH, track_end + 7 * SCALE);
    assert_eq!(v, 5 * SCALE);
    let at_end = drag_value(-5 * SCALE, 5 * SCALE, 20 * SCALE, TRACK_WIDTH, track_end);
    assert_eq!(at_end, 5 * SCALE);
}

#[test]
fn drag_midway_selects_middle_of_range() {
    let v = drag_value(0, 8 * SCALE, 20 * SCALE, TRACK_WIDTH, 20 * SCALE + TRACK_WIDTH / 2);
    assert_eq!(v, 4 * SCALE);
}

#[test]
fn drag_quarter_way_selects_quarter_of_range() {
    let v = drag_value(0, 8 * SCALE, 0, TRACK_WIDTH, TRACK_WIDTH / 4);
    assert_eq!(v, 2 * SCALE);
}

#[test]
fn update_inside_grab_area_moves_the_value() {
    let mut s = test_slider();
    // Pointer at the track's right end, within the vertical margin.
    let changed = s.update(20 * SCALE + TRACK_WIDTH, 120 * SCALE - GRAB_MARGIN, true);
    assert!(changed);
    assert_eq!(s.value, 12 * SCALE);
}

#[test]
fn update_without_button_leaves_the_value() {
    let mut s = test_slider();
    let changed = s.update(20 * SCALE + TRACK_WIDTH, 120 * SCALE, false);
    assert!(!changed);
    assert_eq!(s.value, 4 * SCALE);
}

#[test]
fn update_outside_grab_area_leaves_the_value() {
    let mut s = test_slider();
    // Just above the expanded interaction region.
    let changed = s.update(30 * SCALE, 120 * SCALE - GRAB_MARGIN - 1, true);
    assert!(!changed);
    assert_eq!(s.value, 4 * SCALE);
    // Left of the track.
    let changed_left = s.update(20 * SCALE - 1, 120 * SCALE, true);
    assert!(!changed_left);
    assert_eq!(s.value, 4 * SCALE);
}

#[test]
fn stationary_drag_reports_no_change() {
    let mut s = test_slider();
    let first = s.update(20 * SCALE + TRACK_WIDTH / 2, 120 * SCALE, true);
    assert!(first);
    let second = s.update(20 * SCALE + TRACK_WIDTH / 2, 120 * SCALE, true);
    assert!(!second);
}

#[test]
fn handle_sits_at_the_value_fraction() {
    let mut s = Slider::new("Steps".to_string(), 0, 0, 10 * SCALE, 0, 0);
    assert_eq!(s.handle_x(), 0);
    s.update(TRACK_WIDTH, 0, true);
    assert_eq!(s.value, 10 * SCALE);
    assert_eq!(s.handle_x(), TRACK_WIDTH);
    s.update(TRACK_WIDTH / 2, 0, true);
    assert_eq!(s.handle_x(), TRACK_WIDTH / 2);
}
