//! Clicks, drags and the movement of the pointer.

use input_state::{
    Click, Event, Fixed, InputOptions, Modifiers, Nanos, PointerButton, PointerEvent, PointerState, Pos2, RawInput,
    Rect, Vec2,
};
use input_state::fixed::SCALE;
use input_state::time::INFINITY;
use input_state::ui::Value;

const SECOND: Nanos = 1_000_000_000;
const MS: Nanos = 1_000_000;

fn at(x: i32, y: i32) -> Pos2 {
    Pos2 { x: Fixed::from_int(x), y: Fixed::from_int(y) }
}

fn by(x: i32, y: i32) -> Vec2 {
    Vec2 { x: Fixed::from_int(x), y: Fixed::from_int(y) }
}

fn button(pos: Pos2, button: PointerButton, pressed: bool) -> Event {
    Event::PointerButton { pos, button, pressed, modifiers: Modifiers::none() }
}

fn down(pos: Pos2) -> Event {
    button(pos, PointerButton::Primary, true)
}

fn up(pos: Pos2) -> Event {
    button(pos, PointerButton::Primary, false)
}

fn pass(pointer: PointerState, time: Nanos, events: Vec<Event>) -> PointerState {
    let new = RawInput { events, ..RawInput::default() };
    pointer.begin_pass(time, &new, InputOptions::default())
}

fn click_count(pointer: &PointerState) -> u32 {
    for event in pointer.pointer_events() {
        if let PointerEvent::Released { click: Some(click), .. } = event {
            return click.count;
        }
    }
    0
}

/// Clicks at the given times, and returns how many in a row each click was.
fn clicks(times: &[Nanos]) -> Vec<u32> {
    let mut pointer = PointerState::default();
    let mut counts = vec![];
    for time in times {
        pointer = pass(pointer, *time, vec![down(at(5, 5)), up(at(5, 5))]);
        counts.push(click_count(&pointer));
    }
    counts
}

#[test]
fn nothing_is_known_of_a_new_pointer() {
    let pointer = PointerState::default();
    assert!(!pointer.has_pointer());
    assert_eq!(pointer.latest_pos(), None);
    assert_eq!(pointer.hover_pos(), None);
    assert_eq!(pointer.interact_pos(), None);
    assert_eq!(pointer.press_origin(), None);
    assert_eq!(pointer.press_start_time(), None);
    assert_eq!(pointer.motion(), None);
    assert_eq!(pointer.delta(), Vec2::zero());
    assert_eq!(pointer.velocity(), Vec2::zero());
    assert_eq!(pointer.direction(), Vec2::zero());
    assert!(pointer.is_still());
    assert!(!pointer.is_moving());
    assert!(!pointer.any_down());
    assert!(!pointer.any_click());
    assert!(!pointer.wants_repaint());
    assert!(!pointer.could_any_button_be_click());
    assert!(!pointer.is_decidedly_dragging());
    assert_eq!(pointer.time_since_last_click(), INFINITY);
    assert_eq!(pointer.time_since_last_movement(), INFINITY);
}

#[test]
fn a_press_and_a_release_make_a_click() {
    let modifiers = Modifiers::shift();
    let pointer = pass(PointerState::default(), SECOND, vec![down(at(5, 5))]);
    assert!(pointer.any_pressed());
    assert!(pointer.primary_pressed());
    assert!(!pointer.secondary_pressed());
    assert!(pointer.primary_down());
    assert!(pointer.any_down());
    assert!(pointer.could_any_button_be_click());
    assert!(!pointer.is_decidedly_dragging());
    assert_eq!(pointer.press_origin(), Some(at(5, 5)));
    assert_eq!(pointer.press_start_time(), Some(SECOND));

    let release = Event::PointerButton {
        pos: at(6, 5),
        button: PointerButton::Primary,
        pressed: false,
        modifiers,
    };
    let pointer = pass(pointer, SECOND + 100 * MS, vec![release]);
    assert!(pointer.any_released());
    assert!(pointer.primary_released());
    assert!(!pointer.secondary_released());
    assert!(pointer.any_click());
    assert!(pointer.primary_clicked());
    assert!(!pointer.secondary_clicked());
    assert!(pointer.button_clicked(PointerButton::Primary));
    assert!(!pointer.button_double_clicked(PointerButton::Primary));
    assert!(!pointer.button_triple_clicked(PointerButton::Primary));
    assert!(!pointer.is_decidedly_dragging());
    assert!(!pointer.any_down());
    assert_eq!(pointer.press_origin(), None);
    assert_eq!(pointer.press_start_time(), None);
    let click = Click { pos: at(6, 5), count: 1, modifiers };
    assert_eq!(
        pointer.pointer_events(),
        &vec![PointerEvent::Released { click: Some(click), button: PointerButton::Primary }]
    );
    assert_eq!(pointer.time_since_last_click(), 0);

    let pointer = pass(pointer, 2 * SECOND, vec![]);
    assert!(!pointer.any_click());
    assert_eq!(pointer.time_since_last_click(), 900 * MS);
}

#[test]
fn a_press_may_be_shorter_than_a_frame() {
    let pointer = pass(PointerState::default(), SECOND, vec![down(at(5, 5)), up(at(5, 5))]);
    assert!(pointer.any_pressed());
    assert!(!pointer.any_down());
    assert!(pointer.primary_clicked());
}

#[test]
fn clicks_in_quick_succession_are_counted() {
    assert_eq!(clicks(&[SECOND]), vec![1]);
    assert_eq!(clicks(&[SECOND, SECOND + 200 * MS]), vec![1, 2]);
    assert_eq!(clicks(&[SECOND, SECOND + 200 * MS, SECOND + 400 * MS]), vec![1, 2, 3]);
    assert_eq!(clicks(&[SECOND, 2 * SECOND]), vec![1, 1]);
    // The fourth click is the third one again of a row of three.
    assert_eq!(clicks(&[SECOND, SECOND + 200 * MS, SECOND + 400 * MS, SECOND + 600 * MS]), vec![1, 2, 3, 3]);
}

#[test]
fn the_delay_of_a_double_click_is_exclusive() {
    assert_eq!(clicks(&[SECOND, SECOND + 300 * MS]), vec![1, 1]);
    assert_eq!(clicks(&[SECOND, SECOND + 300 * MS - 1]), vec![1, 2]);
}

#[test]
fn the_delay_of_a_triple_click_is_twice_as_long() {
    // The second click comes too late to be double, the third in time to be triple.
    assert_eq!(clicks(&[SECOND, SECOND + 350 * MS, SECOND + 599 * MS]), vec![1, 1, 3]);
    assert_eq!(clicks(&[SECOND, SECOND + 350 * MS, SECOND + 600 * MS]), vec![1, 1, 2]);
}

#[test]
fn a_double_click_is_timed_by_its_press() {
    // The second press comes in time, however long it is held then.
    let pointer = pass(PointerState::default(), 0, vec![down(at(0, 0)), up(at(0, 0))]);
    let pointer = pass(pointer, 200 * MS, vec![down(at(0, 0))]);
    let pointer = pass(pointer, 600 * MS, vec![up(at(0, 0))]);
    let click = Click { pos: at(0, 0), count: 2, modifiers: Modifiers::none() };
    assert_eq!(
        pointer.pointer_events(),
        &vec![PointerEvent::Released { click: Some(click), button: PointerButton::Primary }]
    );
    // Here it comes too late.
    let pointer = pass(PointerState::default(), 0, vec![down(at(0, 0)), up(at(0, 0))]);
    let pointer = pass(pointer, 300 * MS, vec![down(at(0, 0))]);
    let pointer = pass(pointer, 310 * MS, vec![up(at(0, 0))]);
    assert_eq!(click_count(&pointer), 1);
}

#[test]
fn a_triple_click_is_timed_by_its_press() {
    let pointer = pass(PointerState::default(), 0, vec![down(at(0, 0)), up(at(0, 0))]);
    let pointer = pass(pointer, 200 * MS, vec![down(at(0, 0)), up(at(0, 0))]);
    let pointer = pass(pointer, 599 * MS, vec![down(at(0, 0))]);
    let pointer = pass(pointer, 900 * MS, vec![up(at(0, 0))]);
    assert_eq!(click_count(&pointer), 3);
}

#[test]
fn a_far_release_is_no_click() {
    let pointer = pass(PointerState::default(), SECOND, vec![down(at(0, 0)), up(at(100, 0))]);
    assert_eq!(
        pointer.pointer_events(),
        &vec![
            PointerEvent::Pressed { position: at(0, 0), button: PointerButton::Primary },
            PointerEvent::Released { click: None, button: PointerButton::Primary },
        ]
    );
    assert!(!pointer.any_click());
    // In a frame of its own the release is the end of a drag.
    let pointer = pass(PointerState::default(), SECOND, vec![down(at(0, 0))]);
    let pointer = pass(pointer, SECOND + MS, vec![up(at(7, 0))]);
    assert!(!pointer.any_click());
    assert!(pointer.is_decidedly_dragging());
    // Six points are not too far.
    let pointer = pass(PointerState::default(), SECOND, vec![down(at(0, 0)), up(at(6, 0))]);
    assert!(pointer.primary_clicked());
}

#[test]
fn a_release_of_a_button_that_is_up_is_none() {
    let pointer = pass(PointerState::default(), SECOND, vec![up(at(0, 0)), up(at(0, 0))]);
    assert!(!pointer.any_released());
    assert!(!pointer.any_click());
    assert!(!pointer.could_any_button_be_click());
    assert!(!pointer.is_decidedly_dragging());
    // What the backend reported is kept one for one.
    assert_eq!(pointer.pointer_events().len(), 2);
    assert!(pointer.primary_released());
    // Neither is it a click while another button is down.
    let pointer = pass(pointer, SECOND + MS, vec![button(at(0, 0), PointerButton::Secondary, true), up(at(0, 0))]);
    assert!(!pointer.any_click());
    assert!(!pointer.any_released());
    assert!(pointer.secondary_down());
}

#[test]
fn a_press_of_a_button_that_is_down_is_none() {
    let pointer = pass(PointerState::default(), SECOND, vec![down(at(0, 0))]);
    assert!(pointer.any_pressed());
    let pointer = pass(pointer, SECOND + 700 * MS, vec![down(at(0, 0))]);
    assert!(!pointer.any_pressed());
    assert!(pointer.primary_pressed());
    assert!(pointer.primary_down());
    // It does not make the hold any shorter.
    let pointer = pass(pointer, SECOND + 900 * MS, vec![up(at(0, 0))]);
    assert!(!pointer.any_click());
    assert!(pointer.any_released());
}

#[test]
fn each_button_is_held_on_its_own() {
    let secondary = |pressed| button(at(0, 0), PointerButton::Secondary, pressed);
    let pointer = pass(PointerState::default(), 0, vec![down(at(0, 0))]);
    let pointer = pass(pointer, 5 * SECOND, vec![secondary(true), secondary(false)]);
    assert!(pointer.secondary_clicked());
    let pointer = pass(pointer, 5 * SECOND + 100 * MS, vec![]);
    assert!(!pointer.could_any_button_be_click());
    assert!(pointer.is_decidedly_dragging());
    let pointer = pass(pointer, 5 * SECOND + 200 * MS, vec![up(at(0, 0))]);
    assert!(!pointer.any_click());
    assert!(pointer.any_released());
}

#[test]
fn a_button_that_moved_too_far_is_no_click_whatever_the_others_do() {
    let secondary = |pressed| button(at(50, 0), PointerButton::Secondary, pressed);
    let pointer = pass(
        PointerState::default(),
        SECOND,
        vec![down(at(0, 0)), Event::PointerMoved(at(50, 0)), secondary(true)],
    );
    assert!(pointer.could_any_button_be_click());
    let pointer = pass(pointer, SECOND + MS, vec![secondary(false)]);
    assert!(pointer.secondary_clicked());
    let pointer = pass(pointer, SECOND + 2 * MS, vec![up(at(0, 0))]);
    assert!(!pointer.any_click());
    // A move that only another button reports counts as well.
    let pointer = pass(
        pointer,
        2 * SECOND,
        vec![down(at(0, 0)), secondary(true), secondary(false), up(at(0, 0))],
    );
    assert!(pointer.secondary_clicked());
    assert!(!pointer.primary_clicked());
}

#[test]
fn a_click_is_foretold() {
    let pointer = pass(PointerState::default(), SECOND, vec![down(at(5, 5))]);
    assert!(pointer.could_any_button_be_click());
    assert!(pass(pointer.clone(), SECOND + 800 * MS, vec![up(at(5, 5))]).primary_clicked());
    assert!(!pass(pointer.clone(), SECOND + 801 * MS, vec![up(at(5, 5))]).primary_clicked());
    let pointer = pass(pointer, SECOND + MS, vec![Event::PointerMoved(at(50, 5))]);
    assert!(!pointer.could_any_button_be_click());
    assert!(!pass(pointer, SECOND + 2 * MS, vec![up(at(5, 5))]).primary_clicked());
}

#[test]
fn double_and_triple_clicks_are_clicks_too() {
    let mut pointer = PointerState::default();
    pointer = pass(pointer, SECOND, vec![down(at(5, 5)), up(at(5, 5))]);
    pointer = pass(pointer, SECOND + 100 * MS, vec![down(at(5, 5)), up(at(5, 5))]);
    assert!(pointer.button_double_clicked(PointerButton::Primary));
    assert!(!pointer.button_triple_clicked(PointerButton::Primary));
    assert!(pointer.primary_clicked());
    pointer = pass(pointer, SECOND + 200 * MS, vec![down(at(5, 5)), up(at(5, 5))]);
    assert!(!pointer.button_double_clicked(PointerButton::Primary));
    assert!(pointer.button_triple_clicked(PointerButton::Primary));
    assert!(pointer.primary_clicked());
    assert!(!pointer.button_triple_clicked(PointerButton::Secondary));
}

#[test]
fn a_click_knows_how_many_in_a_row_it_is() {
    let click = Click { pos: at(0, 0), count: 2, modifiers: Modifiers::none() };
    assert!(click.is_double());
    assert!(!click.is_triple());
    let click = Click { count: 3, ..click };
    assert!(!click.is_double());
    assert!(click.is_triple());
    let event = PointerEvent::Released { click: Some(click), button: PointerButton::Primary };
    assert!(event.is_release());
    assert!(event.is_click());
    assert!(!event.is_press());
    let event = PointerEvent::Released { click: None, button: PointerButton::Primary };
    assert!(!event.is_click());
    assert!(PointerEvent::Pressed { position: at(0, 0), button: PointerButton::Middle }.is_press());
    assert!(!PointerEvent::Moved(at(0, 0)).is_release());
}

#[test]
fn moving_too_far_makes_a_drag() {
    let pointer = pass(PointerState::default(), SECOND, vec![down(at(0, 0))]);
    // Six points are not too far.
    let pointer = pass(pointer, SECOND + MS, vec![Event::PointerMoved(at(6, 0))]);
    assert!(pointer.could_any_button_be_click());
    assert!(!pointer.is_decidedly_dragging());
    let pointer = pass(pointer, SECOND + 2 * MS, vec![Event::PointerMoved(at(5, 4))]);
    assert!(!pointer.could_any_button_be_click());
    assert!(pointer.is_decidedly_dragging());
    assert!(!pointer.is_long_press());
    // Moving back does not help.
    let pointer = pass(pointer, SECOND + 3 * MS, vec![Event::PointerMoved(at(0, 0))]);
    assert!(pointer.is_decidedly_dragging());
    // The drag is still seen in the frame in which it ends.
    let pointer = pass(pointer, SECOND + 4 * MS, vec![up(at(0, 0))]);
    assert!(pointer.is_decidedly_dragging());
    assert!(!pointer.any_click());
    assert!(!pointer.any_down());
    let pointer = pass(pointer, SECOND + 5 * MS, vec![]);
    assert!(!pointer.is_decidedly_dragging());
}

#[test]
fn a_drag_is_not_seen_in_the_frame_of_the_press() {
    let pointer = pass(
        PointerState::default(),
        SECOND,
        vec![down(at(0, 0)), Event::PointerMoved(at(100, 0))],
    );
    assert!(!pointer.could_any_button_be_click());
    assert!(!pointer.is_decidedly_dragging());
    let pointer = pass(pointer, SECOND + MS, vec![]);
    assert!(pointer.is_decidedly_dragging());
}

#[test]
fn a_new_press_may_become_a_click_again() {
    let pointer = pass(
        PointerState::default(),
        SECOND,
        vec![down(at(0, 0)), Event::PointerMoved(at(100, 0)), up(at(100, 0))],
    );
    assert!(!pointer.any_click());
    let pointer = pass(pointer, SECOND + MS, vec![down(at(100, 0)), up(at(100, 0))]);
    assert!(pointer.any_click());
    assert_eq!(click_count(&pointer), 1);
}

#[test]
fn holding_too_long_is_no_click() {
    let pointer = pass(PointerState::default(), SECOND, vec![down(at(0, 0))]);
    // A click may take eight tenths of a second.
    let pointer = pass(pointer, SECOND + 800 * MS, vec![]);
    assert!(pointer.could_any_button_be_click());
    assert!(!pointer.is_decidedly_dragging());
    let pointer = pass(pointer, SECOND + 800 * MS + 1, vec![]);
    assert!(!pointer.could_any_button_be_click());
    assert!(pointer.is_decidedly_dragging());
    let pointer = pass(pointer, SECOND + 900 * MS, vec![up(at(0, 0))]);
    assert!(!pointer.any_click());
    assert!(pointer.any_released());
}

#[test]
fn a_long_press_is_seen_in_one_frame() {
    let pointer = pass(PointerState::default(), SECOND, vec![down(at(0, 0))]);
    assert!(!pointer.is_long_press());
    let pointer = pass(pointer, SECOND + 500 * MS, vec![]);
    assert!(!pointer.is_long_press());
    let pointer = pass(pointer, SECOND + 900 * MS, vec![]);
    assert!(pointer.is_long_press());
    let pointer = pass(pointer, SECOND + 950 * MS, vec![]);
    assert!(!pointer.is_long_press());
    assert!(pointer.is_decidedly_dragging());
}

#[test]
fn moving_too_far_from_the_latest_press_is_a_drag_of_all_buttons() {
    let secondary = |pressed| button(at(5, 0), PointerButton::Secondary, pressed);
    let moves = vec![
        down(at(0, 0)),
        Event::PointerMoved(at(5, 0)),
        secondary(true),
        Event::PointerMoved(at(-2, 0)),
    ];
    // Seven points from the latest press, though only five and two from the first.
    let pointer = pass(PointerState::default(), SECOND, moves.clone());
    assert!(pointer.has_moved_too_much_for_a_click());
    assert!(!pointer.could_any_button_be_click());
    assert!(!pointer.started_decidedly_dragging());
    let dragged = pass(pointer.clone(), SECOND + MS, vec![]);
    assert!(dragged.is_decidedly_dragging());
    assert!(dragged.started_decidedly_dragging());
    let released = pass(pointer, SECOND + MS, vec![up(at(-2, 0))]);
    assert_eq!(
        released.pointer_events(),
        &vec![PointerEvent::Released { click: None, button: PointerButton::Primary }]
    );
    // Nor is the other button a click, wherever it is released, until the next press.
    assert!(released.has_moved_too_much_for_a_click());
    let released = pass(released, SECOND + 2 * MS, vec![secondary(false)]);
    assert!(!released.any_click());
    let pressed = pass(released, SECOND + 3 * MS, vec![down(at(0, 0)), up(at(0, 0))]);
    assert!(pressed.primary_clicked());

    let pointer = pass(PointerState::default(), 0, vec![down(at(0, 0))]);
    let pointer = pass(pointer, 100 * MS, moves[1..].to_vec());
    let pointer = pass(pointer, SECOND, vec![]);
    assert!(pointer.is_decidedly_dragging());
    assert!(!pointer.is_long_press());
}

#[test]
fn a_release_too_far_from_the_latest_press_is_no_click() {
    let pointer = pass(
        PointerState::default(),
        SECOND,
        vec![
            down(at(0, 0)),
            button(at(5, 0), PointerButton::Secondary, true),
            up(at(-2, 0)),
        ],
    );
    assert!(!pointer.any_click());
    assert!(pointer.has_moved_too_much_for_a_click());
}

#[test]
fn a_pointer_can_start_with_the_options_of_the_web() {
    let pointer = PointerState::for_platform(true);
    assert!(!pointer.has_moved_too_much_for_a_click());
    assert_eq!(pointer.latest_pos(), None);
}

#[test]
fn a_long_press_is_seen_once_whatever_the_other_buttons_do() {
    let secondary = |pressed| button(at(0, 0), PointerButton::Secondary, pressed);
    let pointer = pass(PointerState::default(), SECOND, vec![down(at(0, 0))]);
    let pointer = pass(pointer, 2 * SECOND, vec![]);
    assert!(pointer.is_long_press());
    let pointer = pass(pointer, 3 * SECOND, vec![secondary(true), secondary(false)]);
    assert!(!pointer.is_decidedly_dragging());
    let pointer = pass(pointer, 4 * SECOND, vec![]);
    assert!(pointer.is_decidedly_dragging());
    assert!(!pointer.is_long_press());
    // The next press of the button may be long again.
    let pointer = pass(pointer, 5 * SECOND, vec![up(at(0, 0))]);
    let pointer = pass(pointer, 6 * SECOND, vec![down(at(0, 0))]);
    let pointer = pass(pointer, 7 * SECOND, vec![]);
    assert!(pointer.is_long_press());
}

#[test]
fn only_the_primary_button_is_long_pressed() {
    let pointer = pass(
        PointerState::default(),
        SECOND,
        vec![button(at(0, 0), PointerButton::Secondary, true)],
    );
    let pointer = pass(pointer, 2 * SECOND, vec![]);
    assert!(pointer.is_decidedly_dragging());
    assert!(!pointer.is_long_press());
}

#[test]
fn buttons_are_told_apart() {
    let pointer = pass(
        PointerState::default(),
        SECOND,
        vec![
            button(at(0, 0), PointerButton::Secondary, true),
            button(at(0, 0), PointerButton::Middle, true),
            button(at(0, 0), PointerButton::Extra1, true),
            button(at(0, 0), PointerButton::Extra2, true),
        ],
    );
    assert!(!pointer.primary_down());
    assert!(pointer.secondary_down());
    assert!(pointer.middle_down());
    assert!(pointer.button_down(PointerButton::Extra1));
    assert!(pointer.button_down(PointerButton::Extra2));
    assert!(pointer.secondary_pressed());
    assert!(!pointer.primary_pressed());
    assert!(pointer.button_pressed(PointerButton::Extra2));

    let pointer = pass(pointer, SECOND + MS, vec![button(at(0, 0), PointerButton::Secondary, false)]);
    assert!(!pointer.secondary_down());
    assert!(pointer.middle_down());
    assert!(pointer.secondary_released());
    assert!(pointer.button_released(PointerButton::Secondary));
    assert!(!pointer.button_released(PointerButton::Middle));
    assert!(pointer.secondary_clicked());
    assert!(!pointer.primary_clicked());
}

#[test]
fn a_pointer_that_leaves_interacts_for_a_frame_more() {
    let pointer = pass(PointerState::default(), SECOND, vec![Event::PointerMoved(at(3, 4))]);
    assert_eq!(pointer.latest_pos(), Some(at(3, 4)));
    assert_eq!(pointer.interact_pos(), Some(at(3, 4)));
    // A tap: the finger is gone, but it touched here.
    let pointer = pass(pointer, SECOND + MS, vec![down(at(7, 8)), up(at(7, 8)), Event::PointerGone]);
    assert!(!pointer.has_pointer());
    assert_eq!(pointer.hover_pos(), None);
    assert_eq!(pointer.interact_pos(), Some(at(7, 8)));
    assert!(pointer.primary_clicked());
    assert_eq!(pointer.delta(), Vec2::zero());
    let pointer = pass(pointer, SECOND + 2 * MS, vec![]);
    assert_eq!(pointer.interact_pos(), None);
}

#[test]
fn leaving_does_not_release_a_button() {
    let pointer = pass(PointerState::default(), SECOND, vec![down(at(0, 0)), Event::PointerGone]);
    assert!(pointer.primary_down());
    assert!(!pointer.any_released());
    assert_eq!(pointer.press_origin(), Some(at(0, 0)));
}

#[test]
fn the_delta_is_taken_from_frame_to_frame() {
    let pointer = pass(PointerState::default(), SECOND, vec![Event::PointerMoved(at(10, 10))]);
    assert_eq!(pointer.delta(), Vec2::zero());
    assert!(pointer.wants_repaint());
    let pointer = pass(
        pointer,
        SECOND + MS,
        vec![Event::PointerMoved(at(50, 50)), Event::PointerMoved(at(13, 6))],
    );
    assert_eq!(pointer.delta(), by(3, -4));
    assert_eq!(pointer.time_since_last_movement(), 0);
    let pointer = pass(pointer, SECOND + 6 * MS, vec![]);
    assert_eq!(pointer.delta(), Vec2::zero());
    assert!(!pointer.wants_repaint());
}

#[test]
fn motion_adds_up_within_a_frame() {
    let pointer = pass(PointerState::default(), SECOND, vec![]);
    assert_eq!(pointer.motion(), None);
    let pointer = pass(pointer, SECOND + MS, vec![Event::MouseMoved(by(1, 2)), Event::MouseMoved(by(3, 4))]);
    assert_eq!(pointer.motion(), Some(by(4, 6)));
    assert_eq!(pointer.latest_pos(), None);
    let pointer = pass(pointer, SECOND + 2 * MS, vec![]);
    assert_eq!(pointer.motion(), Some(Vec2::zero()));
}

#[test]
fn velocity_takes_three_positions_and_some_time() {
    let pointer = pass(PointerState::default(), SECOND, vec![Event::PointerMoved(at(0, 0))]);
    assert!(pointer.is_still());
    let pointer = pass(pointer, SECOND + 10 * MS, vec![Event::PointerMoved(at(3, 4))]);
    // Two positions show a direction, but no velocity.
    assert!(pointer.is_still());
    assert_eq!(
        pointer.direction(),
        Vec2 { x: Fixed { raw: 3 * SCALE / 5 }, y: Fixed { raw: 4 * SCALE / 5 } }
    );
    let pointer = pass(pointer, SECOND + 20 * MS, vec![Event::PointerMoved(at(6, 8))]);
    assert!(pointer.is_moving());
    assert_eq!(pointer.velocity(), by(300, 400));
    assert_eq!(
        pointer.direction(),
        Vec2 { x: Fixed { raw: 3 * SCALE / 5 }, y: Fixed { raw: 4 * SCALE / 5 } }
    );
    // A few frames of stillness are needed, and count as movement meanwhile.
    let pointer = pass(pointer, SECOND + 50 * MS, vec![]);
    assert!(pointer.is_moving());
    assert_eq!(pointer.time_since_last_movement(), 0);
    let pointer = pass(pointer, SECOND + 500 * MS, vec![]);
    assert!(pointer.is_still());
    assert_eq!(pointer.time_since_last_movement(), 450 * MS);
}

#[test]
fn velocity_needs_more_than_a_hundredth_of_a_second() {
    let pointer = pass(PointerState::default(), SECOND, vec![Event::PointerMoved(at(0, 0))]);
    let pointer = pass(pointer, SECOND + 5 * MS, vec![Event::PointerMoved(at(1, 0))]);
    let pointer = pass(pointer, SECOND + 10 * MS, vec![Event::PointerMoved(at(2, 0))]);
    assert!(pointer.is_still());
    assert_eq!(pointer.direction(), by(1, 0));
    let pointer = pass(pointer, SECOND + 20 * MS, vec![Event::PointerMoved(at(4, 0))]);
    assert_eq!(pointer.velocity(), by(200, 0));
}

#[test]
fn a_press_forgets_the_movement_before_it() {
    let pointer = pass(PointerState::default(), SECOND, vec![Event::PointerMoved(at(0, 0))]);
    let pointer = pass(pointer, SECOND + 10 * MS, vec![Event::PointerMoved(at(10, 0))]);
    let pointer = pass(pointer, SECOND + 20 * MS, vec![down(at(20, 0))]);
    assert!(pointer.is_still());
    assert_eq!(pointer.direction(), Vec2::zero());
}

#[test]
fn a_throw_has_a_last_velocity() {
    let pointer = pass(PointerState::default(), SECOND, vec![Event::PointerMoved(at(0, 0))]);
    let pointer = pass(pointer, SECOND + 10 * MS, vec![Event::PointerMoved(at(10, 0))]);
    let pointer = pass(pointer, SECOND + 20 * MS, vec![Event::PointerMoved(at(20, 0))]);
    let pointer = pass(pointer, SECOND + 30 * MS, vec![Event::PointerGone]);
    assert_eq!(pointer.velocity(), by(1000, 0));
    assert_eq!(pointer.direction(), Vec2::zero());
    let pointer = pass(pointer, SECOND + 40 * MS, vec![]);
    assert!(pointer.is_still());
}

#[test]
fn the_pointer_moves_towards_what_lies_ahead() {
    let pointer = pass(PointerState::default(), SECOND, vec![Event::PointerMoved(at(0, 0))]);
    let pointer = pass(pointer, SECOND + 10 * MS, vec![Event::PointerMoved(at(10, 0))]);
    let ahead = Rect { min: at(50, -5), max: at(60, 5) };
    let behind = Rect { min: at(-60, -5), max: at(-50, 5) };
    let aside = Rect { min: at(50, 5), max: at(60, 15) };
    let around = Rect { min: at(-100, -100), max: at(100, 100) };
    assert!(!pointer.is_moving_towards_rect(&ahead));
    let pointer = pass(pointer, SECOND + 20 * MS, vec![Event::PointerMoved(at(20, 0))]);
    assert!(pointer.is_moving_towards_rect(&ahead));
    assert!(!pointer.is_moving_towards_rect(&behind));
    assert!(!pointer.is_moving_towards_rect(&aside));
    assert!(pointer.is_moving_towards_rect(&around));
    let pointer = pass(pointer, SECOND + 30 * MS, vec![Event::PointerGone]);
    assert!(pointer.is_moving());
    assert!(!pointer.is_moving_towards_rect(&ahead));
}

#[test]
fn infinite_limits_are_never_reached() {
    let options = InputOptions {
        max_click_dist: Fixed { raw: i64::MAX },
        max_click_duration: INFINITY,
        ..InputOptions::default()
    };
    let far = Pos2 { x: Fixed { raw: i64::MIN }, y: Fixed { raw: i64::MAX } };
    let new = RawInput { events: vec![down(at(0, 0)), Event::PointerMoved(far)], ..RawInput::default() };
    let pointer = PointerState::default().begin_pass(SECOND, &new, options);
    let new = RawInput { events: vec![up(far)], ..RawInput::default() };
    let pointer = pointer.begin_pass(i64::MAX - 1, &new, options);
    assert!(pointer.primary_clicked());
}

#[test]
fn the_inspector_lists_the_pointer() {
    let pointer = pass(PointerState::default(), SECOND, vec![down(at(5, 6))]);
    let lines = pointer.ui();
    let labels: Vec<&str> = lines.iter().map(|line| line.label).collect();
    assert_eq!(
        labels,
        vec![
            "latest_pos: ",
            "interact_pos: ",
            "delta: ",
            "motion: ",
            "velocity: ",
            "direction: ",
            "down: ",
            "press_origin: ",
            "press_start_time: ",
            "has_moved_too_much_for_a_click: ",
            "started_decidedly_dragging: ",
            "last_click_time: ",
            "last_last_click_time: ",
            "last_move_time: ",
            "pointer_events: ",
        ]
    );
    assert!(matches!(lines[0].value, Value::Pos(Some(pos)) if pos == at(5, 6)));
    assert_eq!(lines[4].unit, " points/sec");
    assert!(matches!(lines[6].value, Value::Buttons([true, false, false, false, false])));
    assert!(matches!(lines[8].value, Value::MaybeTime(Some(SECOND))));
    assert_eq!(lines[8].unit, " s");
    assert!(matches!(lines[14].value, Value::PointerEvents(events) if events.len() == 1));
}
