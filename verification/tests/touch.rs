//! Fingers, touch devices and gestures.

use input_state::{
    Event, Fixed, Gesture, InputOptions, InputState, Modifiers, MultiTouchInfo, Nanos, PointerButton, Pos2, RawInput,
    TouchDeviceId, TouchId, TouchPhase, Vec2,
};
use input_state::time::INFINITY;
use input_state::touch::TouchState;
use input_state::ui::Item;

const MS: Nanos = 1_000_000;

fn at(x: i32, y: i32) -> Pos2 {
    Pos2 { x: Fixed::from_int(x), y: Fixed::from_int(y) }
}

fn touch(device: u64, finger: u64, phase: TouchPhase) -> Event {
    Event::Touch {
        device_id: TouchDeviceId { value: device },
        id: TouchId { value: finger },
        phase,
        pos: at(1, 2),
        force: None,
    }
}

fn gesture(device: u64, zoom: i32) -> Gesture {
    Gesture {
        device_id: TouchDeviceId { value: device },
        info: MultiTouchInfo {
            start_time: 0,
            start_pos: at(0, 0),
            center_pos: at(1, 2),
            num_touches: 2,
            zoom_delta: Fixed::from_int(zoom),
            zoom_delta_2d: Vec2 { x: Fixed::from_int(zoom), y: Fixed::from_int(1) },
            rotation_delta: Fixed::from_int(0),
            translation_delta: Vec2::zero(),
            force: Fixed::from_int(0),
        },
    }
}

fn pass_at(
    state: InputState,
    time: Nanos,
    events: Vec<Event>,
    gestures: Vec<Gesture>,
    options: InputOptions,
) -> InputState {
    let new = RawInput { events, time: Some(time), ..RawInput::default() };
    state.begin_pass_smoothed(new, false, Fixed::from_int(1), options, &gestures, Fixed::from_int(1)).0
}

fn pass(state: InputState, events: Vec<Event>, gestures: Vec<Gesture>) -> InputState {
    pass_at(state, 0, events, gestures, InputOptions::default())
}

fn primary(pressed: bool) -> Event {
    Event::PointerButton { pos: at(1, 2), button: PointerButton::Primary, pressed, modifiers: Modifiers::none() }
}

#[test]
fn fingers_are_followed() {
    let state = InputState::default();
    assert!(!state.has_touch_screen());
    assert!(!state.any_touches());
    let state = pass(state, vec![touch(1, 10, TouchPhase::Start)], vec![]);
    assert!(state.has_touch_screen());
    assert!(state.any_touches());
    let state = pass(state, vec![touch(1, 11, TouchPhase::Start), touch(1, 10, TouchPhase::Move)], vec![]);
    assert!(state.any_touches());
    let state = pass(state, vec![touch(1, 10, TouchPhase::End)], vec![]);
    assert!(state.any_touches());
    let state = pass(state, vec![touch(1, 11, TouchPhase::Cancel)], vec![]);
    assert!(!state.any_touches());
    // Once seen, a device is not forgotten.
    assert!(state.has_touch_screen());
}

#[test]
fn a_finger_that_only_moves_is_not_down() {
    let state = pass(InputState::default(), vec![touch(1, 10, TouchPhase::Move)], vec![]);
    assert!(state.has_touch_screen());
    assert!(!state.any_touches());
}

#[test]
fn devices_do_not_share_fingers() {
    let state = pass(
        InputState::default(),
        vec![touch(1, 10, TouchPhase::Start), touch(2, 10, TouchPhase::Start), touch(1, 10, TouchPhase::End)],
        vec![],
    );
    assert!(state.any_touches());
    let state = pass(state, vec![touch(2, 10, TouchPhase::End)], vec![]);
    assert!(!state.any_touches());
}

#[test]
fn a_gesture_takes_two_fingers() {
    let state = pass(InputState::default(), vec![touch(1, 10, TouchPhase::Start)], vec![gesture(1, 2)]);
    assert_eq!(state.multi_touch(), None);
    assert_eq!(state.zoom_delta(), Fixed::from_int(1));
    let state = pass(state, vec![touch(1, 11, TouchPhase::Start)], vec![gesture(1, 2)]);
    assert_eq!(state.multi_touch(), Some(gesture(1, 2).info));
    assert_eq!(state.zoom_delta(), Fixed::from_int(2));
    assert_eq!(state.zoom_delta_2d(), Vec2 { x: Fixed::from_int(2), y: Fixed::from_int(1) });
    // Without a gesture in the frame there is none, though the fingers are down.
    let state = pass(state, vec![], vec![]);
    assert_eq!(state.multi_touch(), None);
    let state = pass(state, vec![touch(1, 11, TouchPhase::End)], vec![gesture(1, 2)]);
    assert_eq!(state.multi_touch(), None);
}

#[test]
fn a_gesture_goes_before_the_wheel() {
    let events = vec![
        touch(1, 10, TouchPhase::Start),
        touch(1, 11, TouchPhase::Start),
        Event::Zoom(Fixed::from_int(5)),
    ];
    let state = pass(InputState::default(), events, vec![gesture(1, 2)]);
    assert_eq!(state.zoom_delta(), Fixed::from_int(2));
}

#[test]
fn the_first_active_device_is_picked() {
    let fingers = vec![
        touch(9, 1, TouchPhase::Start),
        touch(9, 2, TouchPhase::Start),
        touch(4, 1, TouchPhase::Start),
        touch(4, 2, TouchPhase::Start),
        touch(2, 1, TouchPhase::Start),
    ];
    let state = pass(InputState::default(), fingers, vec![gesture(9, 9), gesture(4, 4), gesture(2, 2)]);
    assert_eq!(state.multi_touch(), Some(gesture(4, 4).info));
    let state = pass(state, vec![], vec![gesture(9, 9)]);
    assert_eq!(state.multi_touch(), Some(gesture(9, 9).info));
}

#[test]
fn a_state_of_one_device_ignores_the_others() {
    let mut state = TouchState::new(TouchDeviceId { value: 3 });
    assert_eq!(state.device_id(), TouchDeviceId { value: 3 });
    state.begin_pass(&vec![touch(4, 1, TouchPhase::Start)], &vec![]);
    assert!(!state.any_touches());
    state.begin_pass(
        &vec![touch(3, 1, TouchPhase::Start), touch(3, 2, TouchPhase::Start)],
        &vec![gesture(4, 4), gesture(3, 3), gesture(3, 5)],
    );
    assert!(state.any_touches());
    assert_eq!(state.info(), Some(gesture(3, 3).info));
}

#[test]
fn a_held_touch_is_looked_at_again() {
    let options = InputOptions::default();
    let state = pass_at(
        InputState::default(),
        1000 * MS,
        vec![touch(1, 1, TouchPhase::Start), primary(true)],
        vec![],
        options,
    );
    assert_eq!(state.wants_repaint_after(), Some(0));
    assert!(!state.is_long_touch());
    let state = pass_at(state, 1300 * MS, vec![], vec![], options);
    assert_eq!(state.wants_repaint_after(), Some(500 * MS));
    assert!(!state.is_long_touch());
    let state = pass_at(state, 1801 * MS, vec![], vec![], options);
    assert!(state.is_long_touch());
    assert_eq!(state.wants_repaint_after(), None);
    let state = pass_at(state, 1900 * MS, vec![], vec![], options);
    assert!(!state.is_long_touch());
    assert_eq!(state.wants_repaint_after(), None);
}

#[test]
fn an_infinite_hold_is_not_waited_for() {
    let options = InputOptions { max_click_duration: INFINITY, ..InputOptions::default() };
    let state = pass_at(
        InputState::default(),
        1000 * MS,
        vec![touch(1, 1, TouchPhase::Start), primary(true)],
        vec![],
        options,
    );
    let state = pass_at(state, 1300 * MS, vec![], vec![], options);
    assert_eq!(state.wants_repaint_after(), None);
}

#[test]
fn a_held_mouse_is_not_waited_for() {
    let options = InputOptions::default();
    let state = pass_at(InputState::default(), 1000 * MS, vec![primary(true)], vec![], options);
    let state = pass_at(state, 1300 * MS, vec![], vec![], options);
    assert_eq!(state.wants_repaint_after(), None);
    let state = pass_at(state, 1900 * MS, vec![], vec![], options);
    assert!(state.pointer.is_long_press());
    assert!(!state.is_long_touch());
}

#[test]
fn the_inspector_has_a_section_for_each_device() {
    let state = pass(
        InputState::default(),
        vec![touch(5, 1, TouchPhase::Start), touch(3, 1, TouchPhase::Start)],
        vec![],
    );
    let mut devices = vec![];
    for item in state.ui(false) {
        if let Item::Touch { title, device_id, touch } = item {
            assert_eq!(title, "Touch State");
            assert_eq!(touch.device_id(), device_id);
            assert!(touch.any_touches());
            devices.push(device_id.value);
        }
    }
    assert_eq!(devices, vec![3, 5]);
}
