//! Keys, shortcuts, filters and the requests of assistive technologies.

use input_state::{
    Action, ActionRequest, Event, EventFilter, Fixed, Id, ImeEvent, InputOptions, InputState, Key, KeySet,
    KeyboardShortcut, Modifiers, RawInput,
};

fn pass(state: InputState, events: Vec<Event>) -> InputState {
    let new = RawInput { events, ..RawInput::default() };
    let (state, _) = state.begin_pass_smoothed(
        new,
        false,
        Fixed::from_int(1),
        InputOptions::default(),
        &vec![],
        Fixed::from_int(1),
    );
    state
}

fn key(key: Key, pressed: bool, modifiers: Modifiers) -> Event {
    Event::Key { key, physical_key: None, pressed, repeat: false, modifiers }
}

fn press(k: Key) -> Event {
    key(k, true, Modifiers::none())
}

fn release(k: Key) -> Event {
    key(k, false, Modifiers::none())
}

fn repeats(state: &InputState) -> Vec<bool> {
    let mut marks = vec![];
    for event in &state.events {
        if let Event::Key { repeat, pressed: true, .. } = event {
            marks.push(*repeat);
        }
    }
    marks
}

fn command_shift() -> Modifiers {
    Modifiers { shift: true, ..Modifiers::command() }
}

fn request(action: Action, target: u64) -> Event {
    Event::AccessKitActionRequest(ActionRequest { action, target, data: None })
}

#[test]
fn a_pressed_key_is_down_until_it_is_released() {
    let state = pass(InputState::default(), vec![press(Key::A)]);
    assert!(state.key_down(Key::A));
    assert!(state.key_pressed(Key::A));
    assert!(!state.key_released(Key::A));
    assert!(!state.key_down(Key::B));

    let state = pass(state, vec![]);
    assert!(state.key_down(Key::A));
    assert!(!state.key_pressed(Key::A));

    let state = pass(state, vec![release(Key::A)]);
    assert!(!state.key_down(Key::A));
    assert!(state.key_released(Key::A));
    assert!(!state.key_released(Key::B));
}

#[test]
fn the_last_event_about_a_key_decides() {
    let state = pass(InputState::default(), vec![press(Key::A), release(Key::A), press(Key::B), press(Key::A)]);
    assert!(state.key_down(Key::A));
    assert!(state.key_down(Key::B));
    let state = pass(state, vec![press(Key::A), release(Key::A)]);
    assert!(!state.key_down(Key::A));
    assert!(state.key_down(Key::B));
}

#[test]
fn repetitions_are_marked_whatever_the_backend_says() {
    let state = pass(InputState::default(), vec![press(Key::A), press(Key::A), release(Key::A), press(Key::A)]);
    assert_eq!(repeats(&state), vec![false, true, false]);

    let claimed = Event::Key {
        key: Key::B,
        physical_key: Some(Key::C),
        pressed: true,
        repeat: true,
        modifiers: Modifiers::shift(),
    };
    let state = pass(state, vec![press(Key::A), claimed]);
    assert_eq!(repeats(&state), vec![true, false]);
    assert_eq!(
        state.events[1],
        Event::Key {
            key: Key::B,
            physical_key: Some(Key::C),
            pressed: true,
            repeat: false,
            modifiers: Modifiers::shift(),
        }
    );
    assert_eq!(state.raw.events, state.events);
}

#[test]
fn the_mark_of_a_release_is_left_alone() {
    let odd = Event::Key {
        key: Key::A,
        physical_key: None,
        pressed: false,
        repeat: true,
        modifiers: Modifiers::none(),
    };
    let state = pass(InputState::default(), vec![odd.clone()]);
    assert_eq!(state.events, vec![odd]);
}

#[test]
fn losing_the_focus_releases_all_keys() {
    let state = pass(InputState::default(), vec![press(Key::A), press(Key::S)]);
    let state = pass(state, vec![Event::WindowFocused(true)]);
    assert!(state.key_down(Key::A));
    let state = pass(state, vec![Event::WindowFocused(false), press(Key::B)]);
    assert!(!state.key_down(Key::A));
    assert!(!state.key_down(Key::S));
    assert!(state.key_down(Key::B));
    let state = pass(state, vec![press(Key::A)]);
    assert_eq!(repeats(&state), vec![false]);
}

#[test]
fn presses_are_counted_with_their_repetitions() {
    let state = pass(
        InputState::default(),
        vec![press(Key::A), press(Key::B), press(Key::A), release(Key::A), press(Key::A)],
    );
    assert_eq!(state.num_presses(Key::A), 3);
    assert_eq!(state.num_presses(Key::B), 1);
    assert_eq!(state.num_presses(Key::C), 0);
    assert!(!state.key_pressed(Key::C));
}

#[test]
fn a_key_is_consumed_only_once() {
    let mut state = pass(
        InputState::default(),
        vec![press(Key::A), Event::Copy, press(Key::B), press(Key::A), release(Key::A)],
    );
    assert_eq!(state.count_and_consume_key(Modifiers::none(), Key::A), 2);
    assert_eq!(state.events, vec![Event::Copy, press(Key::B), release(Key::A)]);
    assert_eq!(state.count_and_consume_key(Modifiers::none(), Key::A), 0);
    assert!(!state.consume_key(Modifiers::none(), Key::A));
    assert!(state.consume_key(Modifiers::none(), Key::B));
    assert!(!state.consume_key(Modifiers::none(), Key::B));
    assert_eq!(state.events, vec![Event::Copy, release(Key::A)]);
    // What the backend sent stays as it was.
    assert_eq!(state.raw.events.len(), 5);
}

#[test]
fn consuming_takes_away_as_many_presses_as_it_counts() {
    let mut state = pass(
        InputState::default(),
        vec![key(Key::S, true, Modifiers::command()), press(Key::S), key(Key::S, true, command_shift())],
    );
    assert_eq!(state.num_presses(Key::S), 3);
    assert_eq!(state.count_and_consume_key(Modifiers::command(), Key::S), 2);
    assert_eq!(state.num_presses(Key::S), 1);
}

#[test]
fn the_most_specific_shortcut_goes_first() {
    let save = KeyboardShortcut { modifiers: Modifiers::command(), logical_key: Key::S };
    let save_as = KeyboardShortcut { modifiers: command_shift(), logical_key: Key::S };

    let mut state = pass(InputState::default(), vec![key(Key::S, true, command_shift())]);
    assert!(state.consume_shortcut(&save_as));
    assert!(!state.consume_shortcut(&save));

    // In the other order the wrong command is triggered.
    let mut state = pass(InputState::default(), vec![key(Key::S, true, command_shift())]);
    assert!(state.consume_shortcut(&save));
    assert!(!state.consume_shortcut(&save_as));

    let mut state = pass(InputState::default(), vec![key(Key::S, true, Modifiers::command())]);
    assert!(!state.consume_shortcut(&save_as));
    assert!(state.consume_shortcut(&save));
}

#[test]
fn extra_shift_and_alt_do_not_matter_but_command_does() {
    let shift = Modifiers::shift();
    let alt = Modifiers::alt();
    let none = Modifiers::none();
    let command = Modifiers::command();
    assert!(none.matches_logically(none));
    assert!(shift.matches_logically(none));
    assert!(alt.matches_logically(none));
    assert!(!none.matches_logically(shift));
    assert!(!none.matches_logically(alt));
    assert!(!command.matches_logically(none));
    assert!(!none.matches_logically(command));
    assert!(command_shift().matches_logically(command));
    assert!(!command.matches_logically(command_shift()));
}

#[test]
fn control_and_command_may_be_one_key() {
    let ctrl = Modifiers { ctrl: true, ..Modifiers::none() };
    let both = Modifiers { ctrl: true, command: true, ..Modifiers::none() };
    let mac = Modifiers { mac_cmd: true, command: true, ..Modifiers::none() };
    assert!(both.cmd_ctrl_matches(ctrl));
    assert!(both.cmd_ctrl_matches(Modifiers::command()));
    assert!(!ctrl.cmd_ctrl_matches(Modifiers::command()));
    assert!(!both.cmd_ctrl_matches(Modifiers::none()));
    let mac_pattern = Modifiers { mac_cmd: true, ..Modifiers::none() };
    assert!(mac.cmd_ctrl_matches(mac_pattern));
    assert!(!both.cmd_ctrl_matches(mac_pattern));
    assert!(!Modifiers { ctrl: true, ..mac }.cmd_ctrl_matches(mac_pattern));
}

#[test]
fn any_modifier_of_a_pattern_will_do() {
    let pattern = Modifiers { shift: true, ..Modifiers::alt() };
    assert!(Modifiers::shift().matches_any(pattern));
    assert!(Modifiers::alt().matches_any(pattern));
    assert!(!Modifiers::command().matches_any(pattern));
    assert!(!Modifiers::shift().matches_any(Modifiers::none()));
    let mac = Modifiers { mac_cmd: true, ..Modifiers::none() };
    assert!(mac.matches_any(Modifiers::command()));
    assert!(mac.matches_any(mac));
    assert!(!Modifiers::command().matches_any(mac));
    let ctrl = Modifiers { ctrl: true, ..Modifiers::none() };
    assert!(ctrl.matches_any(ctrl));
    assert!(!ctrl.matches_any(Modifiers::command()));
}

#[test]
fn a_filter_holds_back_the_keys_that_move_the_focus() {
    let events = vec![
        press(Key::Tab),
        press(Key::ArrowUp),
        press(Key::ArrowLeft),
        press(Key::Escape),
        press(Key::A),
        Event::Text("a".to_string()),
    ];
    let state = pass(InputState::default(), events.clone());
    let nothing = EventFilter { tab: false, horizontal_arrows: false, vertical_arrows: false, escape: false };
    assert_eq!(state.filtered_events(&nothing), vec![press(Key::A), Event::Text("a".to_string())]);
    let all = EventFilter { tab: true, horizontal_arrows: true, vertical_arrows: true, escape: true };
    assert_eq!(state.filtered_events(&all), events);
    let tab = EventFilter { tab: true, ..nothing };
    assert_eq!(state.filtered_events(&tab)[0], press(Key::Tab));
    let vertical = EventFilter { vertical_arrows: true, ..nothing };
    assert_eq!(state.filtered_events(&vertical)[0], press(Key::ArrowUp));
    let horizontal = EventFilter { horizontal_arrows: true, ..nothing };
    assert_eq!(state.filtered_events(&horizontal)[0], press(Key::ArrowLeft));
    let escape = EventFilter { escape: true, ..nothing };
    assert_eq!(state.filtered_events(&escape)[0], press(Key::Escape));
}

#[test]
fn requests_are_found_by_widget_and_action() {
    let id = Id { value: 7 };
    let first = ActionRequest { action: Action::Click, target: 7, data: Some(1) };
    let second = ActionRequest { action: Action::Click, target: 7, data: Some(2) };
    let state = pass(
        InputState::default(),
        vec![
            Event::AccessKitActionRequest(first),
            request(Action::Focus, 7),
            request(Action::Click, 8),
            Event::AccessKitActionRequest(second),
        ],
    );
    assert_eq!(state.accesskit_action_requests(id, Action::Click), vec![first, second]);
    assert_eq!(state.num_accesskit_action_requests(id, Action::Click), 2);
    assert!(state.has_accesskit_action_request(id, Action::Focus));
    assert!(!state.has_accesskit_action_request(id, Action::Blur));
    assert!(!state.has_accesskit_action_request(Id { value: 9 }, Action::Click));
    assert_eq!(state.num_accesskit_action_requests(Id { value: 8 }, Action::Click), 1);
}

#[test]
fn requests_that_are_accepted_are_consumed() {
    let mut state = pass(
        InputState::default(),
        vec![
            request(Action::Click, 7),
            Event::Cut,
            request(Action::Focus, 7),
            request(Action::Click, 8),
            request(Action::Click, 7),
        ],
    );
    let mut asked = vec![];
    state.consume_accesskit_action_requests(Id { value: 7 }, |request: &ActionRequest| {
        asked.push(request.action);
        request.action == Action::Click
    });
    assert_eq!(asked, vec![Action::Click, Action::Focus, Action::Click]);
    assert_eq!(state.events, vec![Event::Cut, request(Action::Focus, 7), request(Action::Click, 8)]);
    state.consume_accesskit_action_requests(Id { value: 7 }, |_: &ActionRequest| false);
    assert_eq!(state.events.len(), 3);
    state.consume_accesskit_action_requests(Id { value: 7 }, |_: &ActionRequest| true);
    assert_eq!(state.events, vec![Event::Cut, request(Action::Click, 8)]);
    state.consume_accesskit_action_requests(Id { value: 9 }, |_: &ActionRequest| true);
    assert_eq!(state.events.len(), 2);
}

#[test]
fn requests_are_consumed_by_their_answers() {
    let mut state = pass(
        InputState::default(),
        vec![
            request(Action::Click, 7),
            request(Action::Click, 8),
            request(Action::Focus, 7),
            Event::Cut,
            request(Action::Blur, 7),
        ],
    );
    state.consume_answered_requests(Id { value: 7 }, &vec![true, false]);
    assert_eq!(
        state.events,
        vec![request(Action::Click, 8), request(Action::Focus, 7), Event::Cut, request(Action::Blur, 7)]
    );
    state.consume_answered_requests(Id { value: 7 }, &vec![]);
    assert_eq!(state.events.len(), 4);
    state.consume_answered_requests(Id { value: 7 }, &vec![true, true, true]);
    assert_eq!(state.events, vec![request(Action::Click, 8), Event::Cut]);
}

#[test]
fn a_set_of_keys_holds_each_key_once() {
    let mut keys = KeySet::new();
    assert!(keys.insert(Key::A));
    assert!(!keys.insert(Key::A));
    assert!(keys.insert(Key::B));
    assert!(keys.contains(Key::A));
    assert_eq!(keys.len(), 2);
    let listed = keys.keys();
    assert_eq!(listed.len(), 2);
    assert!(listed.contains(&Key::A) && listed.contains(&Key::B));
    assert!(keys.clone().contains(Key::B));
    assert!(keys.remove(Key::A));
    assert_eq!(keys.keys(), vec![Key::B]);
    assert!(!keys.remove(Key::A));
    assert!(!keys.contains(Key::A));
    assert!(keys.contains(Key::B));
    keys.clear();
    assert!(!keys.contains(Key::B));
    assert_eq!(keys.len(), 0);
}

#[test]
fn events_are_copied_with_their_contents() {
    let events = vec![
        Event::Paste("p".to_string()),
        Event::Ime(ImeEvent::Preedit("q".to_string())),
        Event::Ime(ImeEvent::Commit("r".to_string())),
        Event::Ime(ImeEvent::Enabled),
        Event::Ime(ImeEvent::Disabled),
        Event::Screenshot { viewport_id: 1, image: 2 },
        Event::WindowFocused(true),
        Event::PointerGone,
        Event::Zoom(Fixed::from_int(2)),
    ];
    assert_eq!(events.clone(), events);
    let state = pass(InputState::default(), events.clone());
    assert_eq!(state.events, events);
    assert_eq!(state.clone().events, events);
}
