//! The frame, the screen and the options.

use input_state::{
    Event, Fixed, InputOptions, InputState, Modifiers, Nanos, Pos2, RawInput, Rect, SafeArea, Vec2, ViewportInfo,
};
use input_state::fixed::SCALE;
use input_state::ui::{Item, Range, Setting, Value};

const SECOND: Nanos = 1_000_000_000;
const MS: Nanos = 1_000_000;

fn at(x: i32, y: i32) -> Pos2 {
    Pos2 { x: Fixed::from_int(x), y: Fixed::from_int(y) }
}

fn pass(state: InputState, new: RawInput, repaint: bool) -> InputState {
    state
        .begin_pass_smoothed(new, repaint, Fixed::from_int(2), InputOptions::default(), &vec![], Fixed::from_int(1))
        .0
}

#[test]
fn a_new_state_has_defaults() {
    let state = InputState::default();
    assert_eq!(state.pixels_per_point(), Fixed::from_int(1));
    assert_eq!(state.max_texture_side, 2048);
    assert_eq!(state.time, 0);
    assert_eq!(state.unstable_dt, 16_666_667);
    assert_eq!(state.predicted_dt, 16_666_667);
    assert_eq!(state.stable_dt, 16_666_667);
    assert!(!state.focused);
    assert_eq!(state.modifiers, Modifiers::none());
    assert!(state.events.is_empty());
    assert_eq!(state.screen_rect(), Rect { min: at(0, 0), max: at(10_000, 10_000) });
    assert_eq!(state.safe_area(), SafeArea::default());
    assert_eq!(state.zoom_delta(), Fixed::from_int(1));
    assert_eq!(state.wants_repaint_after(), None);
    assert!(state.viewport().title.is_none());
}

#[test]
fn the_backend_may_keep_time() {
    let new = RawInput { time: Some(3 * SECOND), predicted_dt: 10 * MS, ..RawInput::default() };
    let state = pass(InputState::default(), new.clone(), true);
    assert_eq!(state.time, 3 * SECOND);
    assert_eq!(state.unstable_dt, 3 * SECOND);
    assert_eq!(state.stable_dt, 3 * SECOND);
    assert_eq!(state.predicted_dt, 10 * MS);
    // After a sleep the time that passed says nothing.
    let state = pass(InputState::default(), new, false);
    assert_eq!(state.unstable_dt, 3 * SECOND);
    assert_eq!(state.stable_dt, 10 * MS);
}

#[test]
fn else_time_goes_on_as_predicted() {
    let new = RawInput { predicted_dt: 10 * MS, ..RawInput::default() };
    let state = pass(InputState::default(), new.clone(), true);
    let state = pass(state, new, true);
    assert_eq!(state.time, 20 * MS);
    assert_eq!(state.unstable_dt, 10 * MS);
    assert_eq!(state.stable_dt, 10 * MS);
}

#[test]
fn what_the_backend_leaves_out_stays() {
    let rect = Rect { min: at(0, 0), max: at(800, 600) };
    let insets = SafeArea {
        left: Fixed::from_int(1),
        right: Fixed::from_int(2),
        top: Fixed::from_int(30),
        bottom: Fixed::from_int(4),
    };
    let new = RawInput {
        screen_rect: Some(rect),
        safe_area: Some(insets),
        max_texture_side: Some(4096),
        modifiers: Modifiers::alt(),
        focused: true,
        ..RawInput::default()
    };
    let state = pass(InputState::default(), new, false);
    assert_eq!(state.screen_rect_including_unsafe_area(), rect);
    assert_eq!(state.screen_rect(), Rect { min: at(1, 30), max: at(798, 596) });
    assert_eq!(state.safe_area(), insets);
    assert_eq!(state.max_texture_side, 4096);
    assert_eq!(state.modifiers, Modifiers::alt());
    assert!(state.focused);
    let state = pass(state, RawInput { focused: false, ..RawInput::default() }, false);
    assert_eq!(state.screen_rect_including_unsafe_area(), rect);
    assert_eq!(state.safe_area(), insets);
    assert_eq!(state.max_texture_side, 4096);
    assert_eq!(state.modifiers, Modifiers::none());
    assert!(!state.focused);
}

#[test]
fn pixels_have_a_size_in_points() {
    let state = pass(InputState::default(), RawInput::default(), false);
    assert_eq!(state.pixels_per_point(), Fixed::from_int(2));
    assert_eq!(state.physical_pixel_size(), Fixed { raw: SCALE / 2 });
    assert_eq!(state.aim_radius(), Fixed { raw: SCALE / 2 });
    let state = InputState { pixels_per_point: Fixed::from_int(0), ..state };
    assert_eq!(state.physical_pixel_size(), Fixed { raw: i64::MAX });
}

#[test]
fn the_active_viewport_is_found() {
    let mut new = RawInput::default();
    new.viewports.insert(3, ViewportInfo { title: Some("three".to_string()), ..ViewportInfo::default() });
    new.viewport_id = 3;
    assert_eq!(new.viewport().title, Some("three".to_string()));
    let state = pass(InputState::default(), new, false);
    assert_eq!(state.viewport().title, Some("three".to_string()));
    assert!(state.viewport().minimized.is_none());
}

#[test]
fn whatever_happens_asks_for_a_repaint() {
    let new = RawInput { events: vec![Event::Copy], ..RawInput::default() };
    let state = pass(InputState::default(), new, false);
    assert_eq!(state.wants_repaint_after(), Some(0));
    let state = pass(state, RawInput::default(), false);
    assert_eq!(state.wants_repaint_after(), None);
}

#[test]
fn the_defaults_of_the_options() {
    let options = InputOptions::default();
    assert_eq!(options.line_scroll_speed, Fixed::from_int(40));
    assert_eq!(options.scroll_zoom_speed.raw as f64 / SCALE as f64, (1.0f32 / 200.0) as f64);
    assert_eq!(options.max_click_dist, Fixed::from_int(6));
    assert_eq!(options.max_click_duration, 800 * MS);
    assert_eq!(options.max_double_click_delay, 300 * MS);
    assert_eq!(options.zoom_modifier, Modifiers::command());
    assert_eq!(options.horizontal_scroll_modifier, Modifiers::shift());
    assert_eq!(options.vertical_scroll_modifier, Modifiers::alt());
    let web = InputOptions::for_platform(true);
    assert_eq!(web, InputOptions { line_scroll_speed: Fixed::from_int(8), ..options });
}

#[test]
fn the_form_keeps_the_options_in_range() {
    let mut options = InputOptions::default();
    options.set(Setting::LineScrollSpeed(Fixed::from_int(-1)));
    options.set(Setting::ScrollZoomSpeed(Fixed::from_int(-1)));
    options.set(Setting::MaxClickDist(Fixed::from_int(-1)));
    options.set(Setting::MaxClickDuration(0));
    options.set(Setting::MaxDoubleClickDelay(0));
    assert_eq!(options.line_scroll_speed, Fixed::from_int(0));
    assert_eq!(options.scroll_zoom_speed, Fixed::from_int(0));
    assert_eq!(options.max_click_dist, Fixed::from_int(0));
    assert_eq!(options.max_click_duration, 100 * MS);
    assert_eq!(options.max_double_click_delay, 10 * MS);
    options.set(Setting::LineScrollSpeed(Fixed::from_int(7)));
    options.set(Setting::ScrollZoomSpeed(Fixed::from_int(8)));
    options.set(Setting::MaxClickDist(Fixed::from_int(9)));
    options.set(Setting::MaxClickDuration(SECOND));
    options.set(Setting::MaxDoubleClickDelay(2 * SECOND));
    options.set(Setting::ZoomModifier(Modifiers::alt()));
    options.set(Setting::HorizontalScrollModifier(Modifiers::command()));
    options.set(Setting::VerticalScrollModifier(Modifiers::shift()));
    assert_eq!(
        options,
        InputOptions {
            line_scroll_speed: Fixed::from_int(7),
            scroll_zoom_speed: Fixed::from_int(8),
            max_click_dist: Fixed::from_int(9),
            max_click_duration: SECOND,
            max_double_click_delay: 2 * SECOND,
            zoom_modifier: Modifiers::alt(),
            horizontal_scroll_modifier: Modifiers::command(),
            vertical_scroll_modifier: Modifiers::shift(),
        }
    );
}

#[test]
fn the_form_has_a_row_for_each_option() {
    let rows = InputOptions::default().ui();
    let labels: Vec<&str> = rows.iter().map(|row| row.label).collect();
    assert_eq!(
        labels,
        vec![
            "Line scroll speed",
            "Scroll zoom speed",
            "Max click distance",
            "Max click duration",
            "Max double click delay",
            "zoom_modifier",
            "horizontal_scroll_modifier",
            "vertical_scroll_modifier",
        ]
    );
    assert_eq!(rows[0].setting, Setting::LineScrollSpeed(Fixed::from_int(40)));
    assert_eq!(rows[0].hover, "How many lines to scroll with each tick of the mouse wheel");
    assert_eq!(rows[0].range, Range::Numbers { least: Fixed::from_int(0), most: Fixed { raw: i64::MAX } });
    assert_eq!(rows[3].range, Range::Spans { least: 100 * MS, most: i64::MAX });
    assert_eq!(rows[4].range, Range::Spans { least: 10 * MS, most: i64::MAX });
    assert_eq!(rows[5].range, Range::Free);
    assert_eq!(rows[1].drag_speed, 1);
    assert_eq!(rows[3].drag_speed, 100);
    assert_eq!(rows[7].setting, Setting::VerticalScrollModifier(Modifiers::alt()));
}

#[test]
fn the_inspector_lists_the_state() {
    let state = pass(InputState::default(), RawInput { events: vec![Event::Cut], ..RawInput::default() }, false);
    let items = state.ui(true);
    assert!(matches!(items[0], Item::Monospace));
    assert!(matches!(items[1], Item::RawInput { title: "Raw Input", .. }));
    assert!(matches!(items[2], Item::Pointer { title: "🖱 Pointer", .. }));
    let labels: Vec<&str> = items
        .iter()
        .filter_map(|item| match item {
            Item::Line(line) => Some(line.label),
            Item::Tall { line, .. } => Some(line.label),
            _ => None,
        })
        .collect();
    assert_eq!(
        labels,
        vec![
            "Time since last scroll: ",
            "unprocessed_scroll_delta: ",
            "unprocessed_scroll_delta_for_zoom: ",
            "raw_scroll_delta: ",
            "smooth_scroll_delta: ",
            "zoom_factor_delta: ",
            "screen_rect: ",
            "safe_area: ",
            "",
            "max texture size (on each side): ",
            "time: ",
            "time since previous frame: ",
            "predicted_dt: ",
            "stable_dt:    ",
            "focused:   ",
            "modifiers: ",
            "keys_down: ",
            "events: ",
        ]
    );
    // What is pending is for debugging only.
    assert_eq!(state.ui(false).len(), items.len() - 2);
    match items[items.len() - 1] {
        Item::Tall { line, min_height } => {
            assert_eq!(line.hover, "key presses etc");
            assert_eq!(min_height, Fixed::from_int(150));
            assert!(matches!(line.value, Value::Events(events) if events.len() == 1));
        }
        _ => panic!("the events come last"),
    }
}

#[test]
fn numbers_saturate() {
    let most = Fixed { raw: i64::MAX };
    let least = Fixed { raw: i64::MIN };
    assert_eq!(most.plus(Fixed::from_int(1)), most);
    assert_eq!(least.minus(Fixed::from_int(1)), least);
    assert_eq!(most.times(least), least);
    assert_eq!(Fixed::from_int(3).times(Fixed::from_int(-4)), Fixed::from_int(-12));
    assert_eq!(Fixed::from_int(3).over(Fixed::from_int(-2)), Fixed { raw: -3 * SCALE / 2 });
    assert_eq!(Fixed::from_int(-3).over(Fixed::from_int(0)), least);
    assert_eq!(Fixed::from_int(0).over(Fixed::from_int(0)), Fixed::from_int(0));
    assert!(Fixed::from_int(-1).is_within(Fixed::from_int(2)));
    assert!(!Fixed::from_int(-2).is_within(Fixed::from_int(2)));
    assert!(!least.is_within(least));
}

#[test]
fn directions_have_length_one() {
    let v = Vec2 { x: Fixed::from_int(-3), y: Fixed::from_int(4) };
    assert_eq!(v.normalized(), Vec2 { x: Fixed { raw: -3 * SCALE / 5 }, y: Fixed { raw: 4 * SCALE / 5 } });
    assert_eq!(Vec2::zero().normalized(), Vec2::zero());
    let tiny = Vec2 { x: Fixed { raw: 0 }, y: Fixed { raw: -1 } };
    assert_eq!(tiny.normalized(), Vec2 { x: Fixed { raw: 0 }, y: Fixed::from_int(-1) });
}

#[test]
fn rays_meet_rectangles() {
    let rect = Rect { min: at(10, 10), max: at(20, 20) };
    let right = Vec2 { x: Fixed::from_int(1), y: Fixed::from_int(0) };
    let down = Vec2 { x: Fixed::from_int(0), y: Fixed::from_int(1) };
    let diagonal = Vec2 { x: Fixed::from_int(1), y: Fixed::from_int(1) };
    let back = Vec2 { x: Fixed::from_int(-1), y: Fixed::from_int(-1) };
    assert!(rect.intersects_ray(at(0, 15), right));
    assert!(rect.intersects_ray(at(0, 10), right));
    assert!(!rect.intersects_ray(at(0, 9), right));
    assert!(!rect.intersects_ray(at(30, 15), right));
    assert!(rect.intersects_ray(at(15, 15), right));
    assert!(rect.intersects_ray(at(15, 0), down));
    assert!(!rect.intersects_ray(at(5, 0), down));
    assert!(rect.intersects_ray(at(0, 0), diagonal));
    assert!(rect.intersects_ray(at(0, 10), diagonal));
    assert!(!rect.intersects_ray(at(0, 11), diagonal));
    assert!(rect.intersects_ray(at(30, 30), back));
    assert!(!rect.intersects_ray(at(0, 0), back));
    assert!(!Rect { min: at(20, 20), max: at(10, 10) }.intersects_ray(at(0, 0), diagonal));
}
