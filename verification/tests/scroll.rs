//! Scrolling and zooming.

use input_state::{Event, Fixed, InputOptions, InputState, Modifiers, MouseWheelUnit, Nanos, RawInput, Vec2};
use input_state::fixed::SCALE;
use input_state::scroll::Scroll;
use input_state::time::INFINITY;

const MS: Nanos = 1_000_000;

fn by(x: i32, y: i32) -> Vec2 {
    Vec2 { x: Fixed::from_int(x), y: Fixed::from_int(y) }
}

fn half() -> Fixed {
    Fixed { raw: SCALE / 2 }
}

fn wheel(unit: MouseWheelUnit, delta: Vec2, modifiers: Modifiers) -> Event {
    Event::MouseWheel { unit, delta, modifiers }
}

fn points(x: i32, y: i32) -> Event {
    wheel(MouseWheelUnit::Point, by(x, y), Modifiers::none())
}

/// A frame that carries out half of what is pending.
fn pass(state: InputState, events: Vec<Event>) -> (InputState, Fixed) {
    let new = RawInput { events, ..RawInput::default() };
    state.begin_pass_smoothed(new, false, Fixed::from_int(1), InputOptions::default(), &vec![], half())
}

fn exponential(power: Fixed) -> Fixed {
    let scale = SCALE as f64;
    Fixed { raw: ((power.raw as f64 / scale).exp() * scale) as i64 }
}

#[test]
fn small_steps_in_points_are_not_smoothed() {
    let (state, power) = pass(InputState::default(), vec![points(3, 4)]);
    assert_eq!(state.raw_scroll_delta, by(3, 4));
    assert_eq!(state.smooth_scroll_delta, by(3, 4));
    assert_eq!(power, Fixed::from_int(0));
    assert_eq!(state.zoom_delta(), Fixed::from_int(1));
    let (state, _) = pass(state, vec![]);
    assert_eq!(state.raw_scroll_delta, Vec2::zero());
    assert_eq!(state.smooth_scroll_delta, Vec2::zero());
}

#[test]
fn steps_of_eight_points_are_smoothed() {
    let (state, _) = pass(InputState::default(), vec![points(0, 8)]);
    assert_eq!(state.raw_scroll_delta, by(0, 8));
    assert_eq!(state.smooth_scroll_delta, by(0, 4));
    let (state, _) = pass(state, vec![]);
    assert_eq!(state.raw_scroll_delta, Vec2::zero());
    assert_eq!(state.smooth_scroll_delta, by(0, 2));
    let (state, _) = pass(state, vec![]);
    assert_eq!(state.smooth_scroll_delta, by(0, 1));
    // One point is still split, half a point is carried out at once.
    let (state, _) = pass(state, vec![]);
    assert_eq!(state.smooth_scroll_delta.y, half());
    let (state, _) = pass(state, vec![]);
    assert_eq!(state.smooth_scroll_delta.y, half());
    let (state, _) = pass(state, vec![]);
    assert_eq!(state.smooth_scroll_delta, Vec2::zero());
}

#[test]
fn lines_and_pages_are_turned_into_points() {
    let (state, _) = pass(
        InputState::default(),
        vec![wheel(MouseWheelUnit::Line, by(1, -2), Modifiers::none())],
    );
    assert_eq!(state.raw_scroll_delta, by(40, -80));
    assert_eq!(state.smooth_scroll_delta, by(20, -40));
    // The screen is ten thousand points high.
    let (state, _) = pass(
        InputState::default(),
        vec![wheel(MouseWheelUnit::Page, by(0, 1), Modifiers::none())],
    );
    assert_eq!(state.raw_scroll_delta, by(0, 10_000));
}

#[test]
fn lines_are_smoothed_however_short() {
    let options = InputOptions { line_scroll_speed: Fixed::from_int(2), ..InputOptions::default() };
    let new = RawInput {
        events: vec![wheel(MouseWheelUnit::Line, by(0, 1), Modifiers::none())],
        ..RawInput::default()
    };
    let (state, _) =
        InputState::default().begin_pass_smoothed(new, false, Fixed::from_int(1), options, &vec![], half());
    assert_eq!(state.raw_scroll_delta, by(0, 2));
    assert_eq!(state.smooth_scroll_delta, by(0, 1));
}

#[test]
fn the_options_of_the_web_scroll_by_less() {
    let new = RawInput {
        events: vec![wheel(MouseWheelUnit::Line, by(0, 1), Modifiers::none())],
        ..RawInput::default()
    };
    let options = InputOptions::for_platform(true);
    let (state, _) =
        InputState::for_platform(true).begin_pass_smoothed(new, false, Fixed::from_int(1), options, &vec![], half());
    assert_eq!(state.raw_scroll_delta, by(0, 8));
}

#[test]
fn modifiers_turn_the_wheel_along_one_axis() {
    let shift = Modifiers::shift();
    let alt = Modifiers::alt();
    let both = Modifiers { shift: true, ..alt };
    let turn = |modifiers| pass(InputState::default(), vec![wheel(MouseWheelUnit::Point, by(1, 2), modifiers)]).0;
    assert_eq!(turn(shift).smooth_scroll_delta, by(3, 0));
    assert_eq!(turn(alt).smooth_scroll_delta, by(0, 3));
    assert_eq!(turn(both).smooth_scroll_delta, by(1, 2));
}

#[test]
fn the_zoom_modifier_makes_scrolls_zooms() {
    let command = Modifiers::command();
    let (state, power) = pass(
        InputState::default(),
        vec![wheel(MouseWheelUnit::Point, by(1, 3), command)],
    );
    assert_eq!(state.raw_scroll_delta, by(1, 3));
    assert_eq!(state.smooth_scroll_delta, Vec2::zero());
    assert_eq!(power, Fixed { raw: 4 * 21_474_836 });
    assert_eq!(state.zoom_delta(), Fixed::from_int(1));
    let state = state.zoomed(Fixed::from_int(3));
    assert_eq!(state.zoom_delta(), Fixed::from_int(3));
}

#[test]
fn large_zooms_are_smoothed_too() {
    let command = Modifiers::command();
    let (state, power) = pass(
        InputState::default(),
        vec![wheel(MouseWheelUnit::Line, by(0, 5), command)],
    );
    // A hundred points of two hundred, at a speed of one two-hundredth.
    assert_eq!(power, Fixed { raw: 100 * 21_474_836 });
    assert_eq!(state.wants_repaint_after(), Some(0));
    let (state, power) = pass(state, vec![]);
    assert_eq!(power, Fixed { raw: 50 * 21_474_836 });
    assert_eq!(state.wants_repaint_after(), Some(0));
}

#[test]
fn zoom_events_multiply() {
    let (state, power) = pass(
        InputState::default(),
        vec![Event::Zoom(Fixed::from_int(2)), Event::Zoom(Fixed { raw: 3 * SCALE / 2 })],
    );
    assert_eq!(power, Fixed::from_int(0));
    assert_eq!(state.zoom_delta(), Fixed::from_int(3));
    assert_eq!(state.zoom_delta_2d(), by(3, 3));
    let (state, _) = pass(state, vec![]);
    assert_eq!(state.zoom_delta(), Fixed::from_int(1));
}

#[test]
fn zooming_may_be_kept_to_one_axis() {
    let zoom = |modifiers| {
        let new = RawInput { events: vec![Event::Zoom(Fixed::from_int(2))], modifiers, ..RawInput::default() };
        InputState::default()
            .begin_pass_smoothed(new, false, Fixed::from_int(1), InputOptions::default(), &vec![], half())
            .0
            .zoom_delta_2d()
    };
    assert_eq!(zoom(Modifiers::none()), by(2, 2));
    assert_eq!(zoom(Modifiers::shift()), by(2, 1));
    assert_eq!(zoom(Modifiers::alt()), by(1, 2));
    assert_eq!(zoom(Modifiers { shift: true, ..Modifiers::alt() }), by(2, 2));
}

#[test]
fn the_factors_come_from_outside() {
    let new = RawInput {
        events: vec![wheel(MouseWheelUnit::Point, by(0, 100), Modifiers::command()), points(0, 16)],
        time: Some(50 * MS),
        ..RawInput::default()
    };
    let mut spans = vec![];
    let mut powers = vec![];
    let state = InputState::default().begin_pass(
        new,
        true,
        Fixed::from_int(1),
        InputOptions::default(),
        &vec![],
        |span| {
            spans.push(span);
            half()
        },
        |power| {
            powers.push(power);
            exponential(power)
        },
    );
    assert_eq!(spans, vec![50 * MS]);
    assert_eq!(powers, vec![Fixed { raw: 50 * 21_474_836 }]);
    assert_eq!(state.smooth_scroll_delta, by(0, 8));
    // The exponential of a quarter.
    let zoom = state.zoom_delta().raw as f64 / SCALE as f64;
    assert!((zoom - 1.284025).abs() < 0.00001);
}

#[test]
fn long_frames_are_smoothed_as_a_tenth_of_a_second() {
    let span_of = |repaint, time| {
        let new = RawInput { time: Some(time), ..RawInput::default() };
        let mut seen = 0;
        let _ = InputState::default().begin_pass(
            new,
            repaint,
            Fixed::from_int(1),
            InputOptions::default(),
            &vec![],
            |span| {
                seen = span;
                half()
            },
            exponential,
        );
        seen
    };
    assert_eq!(span_of(true, 99 * MS), 99 * MS);
    assert_eq!(span_of(true, 5000 * MS), 100 * MS);
    // Without a repaint the frame counts as long as it was predicted.
    assert_eq!(span_of(false, 5000 * MS), 16_666_667);
}

#[test]
fn smoothing_loses_nothing_of_a_scroll() {
    let start = Scroll::start(by(7, -3), Fixed::from_int(5));
    let third = Fixed { raw: SCALE / 3 };
    let after = start.smoothed(third);
    assert_eq!(
        after.smooth_scroll_delta.x.raw + after.unprocessed_scroll_delta.x.raw,
        Fixed::from_int(7).raw
    );
    assert_eq!(
        after.smooth_scroll_delta.y.raw + after.unprocessed_scroll_delta.y.raw,
        Fixed::from_int(-3).raw
    );
    assert_eq!(
        after.smooth_scroll_delta_for_zoom.raw + after.unprocessed_scroll_delta_for_zoom.raw,
        Fixed::from_int(5).raw
    );
    assert!(after.unprocessed_scroll_delta.x.raw > 0);
    assert!(after.unprocessed_scroll_delta.x.raw < Fixed::from_int(7).raw);
}

#[test]
fn the_time_of_the_last_scroll_is_kept() {
    let at = |state: InputState, time, events| {
        let new = RawInput { events, time: Some(time), ..RawInput::default() };
        state.begin_pass_smoothed(new, false, Fixed::from_int(1), InputOptions::default(), &vec![], half()).0
    };
    let state = InputState::default();
    assert_eq!(state.time_since_last_scroll(), INFINITY);
    let state = at(state, 100 * MS, vec![points(0, 1)]);
    assert_eq!(state.time_since_last_scroll(), 0);
    let state = at(state, 250 * MS, vec![]);
    assert_eq!(state.time_since_last_scroll(), 150 * MS);
    // Scrolling that is pending counts as well.
    let state = at(state, 300 * MS, vec![points(0, 100)]);
    let state = at(state, 400 * MS, vec![]);
    assert_eq!(state.time_since_last_scroll(), 0);
}

#[test]
fn pending_scrolls_ask_for_a_repaint() {
    let (state, _) = pass(InputState::default(), vec![points(0, 8)]);
    let (state, _) = pass(state, vec![]);
    // Two points are left to scroll.
    assert!(state.events.is_empty());
    assert_eq!(state.wants_repaint_after(), Some(0));
    let (state, _) = pass(state, vec![]);
    let (state, _) = pass(state, vec![]);
    assert_eq!(state.wants_repaint_after(), Some(0));
    let (state, _) = pass(state, vec![]);
    assert_eq!(state.wants_repaint_after(), None);
}

#[test]
fn no_scroll_is_lost_over_frames() {
    let third = Fixed { raw: SCALE / 3 };
    let frames = vec![
        vec![points(3, -50), points(100, 7)],
        vec![],
        vec![wheel(MouseWheelUnit::Line, by(-1, 2), Modifiers::none()), points(1, 1)],
        vec![wheel(MouseWheelUnit::Point, by(9, 9), Modifiers::shift())],
        vec![],
    ];
    let mut state = InputState::default();
    let mut turned = (0, 0);
    let mut scrolled = (0, 0);
    for events in frames {
        let new = RawInput { events, ..RawInput::default() };
        state = state
            .begin_pass_smoothed(new, false, Fixed::from_int(1), InputOptions::default(), &vec![], third)
            .0;
        turned = (turned.0 + state.raw_scroll_delta.x.raw, turned.1 + state.raw_scroll_delta.y.raw);
        scrolled = (scrolled.0 + state.smooth_scroll_delta.x.raw, scrolled.1 + state.smooth_scroll_delta.y.raw);
    }
    assert_eq!(turned, (Fixed::from_int(82).raw, Fixed::from_int(38).raw));
    assert_ne!(scrolled, turned);
    // What is still pending comes out over the frames that follow.
    for _ in 0..100 {
        state = pass(state, vec![]).0;
        scrolled = (scrolled.0 + state.smooth_scroll_delta.x.raw, scrolled.1 + state.smooth_scroll_delta.y.raw);
    }
    assert_eq!(scrolled, turned);
}
