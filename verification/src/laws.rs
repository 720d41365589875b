//! What holds of the input state as a whole.

pub mod events;
pub mod frames;
pub mod modifiers;
pub mod numbers;
pub mod pointing;
pub mod scrolling;
pub mod showing;
pub mod touching;

use crate::data::{Event, Id, Key, PointerButton, RawInput, TouchDeviceId, TouchPhase};
use crate::event_list::{
    addressed, all_marked, is_addressed, is_press, is_shortcut, keys_after_events, presses, shortcuts,
    without_answered, without_shortcuts,
};
use crate::fixed::Fixed;
use crate::geometry::{Pos2, Rect, Vec2};
use crate::input::InputState;
use crate::modifiers::Modifiers;
use crate::options::InputOptions;
use crate::pointer::{Hold, PointerEvent, PointerModel};
use crate::scroll::Scroll;
use crate::time::Nanos;
use crate::touch::{ActiveTouch, Gesture, TouchModel};
use crate::ui::Setting;
use vstd::prelude::*;

verus! {

// ----------------------------------------------------------------------------
// Keys and shortcuts

/// The presses of a shortcut are consumed, so that they are counted only once.
pub proof fn shortcut_is_consumed_once(events: Seq<Event>, modifiers: Modifiers, key: Key)
    ensures
        shortcuts(without_shortcuts(events, modifiers, key), modifiers, key).len() == 0,
    decreases events.len(),
{
    reveal(Seq::filter);
    if events.len() > 0 {
        shortcut_is_consumed_once(events.drop_last(), modifiers, key);
        let rest = without_shortcuts(events.drop_last(), modifiers, key);
        let last = events.last();
        if !is_shortcut(last, modifiers, key) {
            assert(rest.push(last).drop_last() =~= rest);
        }
    }
}

/// Consuming a shortcut takes as many presses of its key away as it counts, and no event but those.
pub proof fn consuming_takes_what_it_counts(events: Seq<Event>, modifiers: Modifiers, key: Key)
    ensures
        without_shortcuts(events, modifiers, key).len() + shortcuts(events, modifiers, key).len() == events.len(),
        presses(without_shortcuts(events, modifiers, key), key).len() + shortcuts(events, modifiers, key).len()
            == presses(events, key).len(),
    decreases events.len(),
{
    reveal(Seq::filter);
    if events.len() > 0 {
        consuming_takes_what_it_counts(events.drop_last(), modifiers, key);
        let rest = without_shortcuts(events.drop_last(), modifiers, key);
        let last = events.last();
        if !is_shortcut(last, modifiers, key) {
            assert(rest.push(last).drop_last() =~= rest);
        }
    }
}

/// Consuming a shortcut leaves the presses of other keys alone.
pub proof fn consuming_leaves_other_keys(events: Seq<Event>, modifiers: Modifiers, key: Key, other: Key)
    requires
        key != other,
    ensures
        presses(without_shortcuts(events, modifiers, key), other) == presses(events, other),
    decreases events.len(),
{
    reveal(Seq::filter);
    if events.len() > 0 {
        consuming_leaves_other_keys(events.drop_last(), modifiers, key, other);
        let rest = without_shortcuts(events.drop_last(), modifiers, key);
        let last = events.last();
        if !is_shortcut(last, modifiers, key) {
            assert(rest.push(last).drop_last() =~= rest);
        }
    }
}

/// Extra Shift and Alt do not keep modifiers from matching.
pub proof fn extra_shift_and_alt_are_ignored(modifiers: Modifiers, pattern: Modifiers, shift: bool, alt: bool)
    requires
        modifiers.matches_logically(pattern),
    ensures
        (Modifiers { shift: modifiers.shift || shift, alt: modifiers.alt || alt, ..modifiers }).matches_logically(
            pattern,
        ),
{
}

/// A press of a shortcut with Shift or Alt is a press of the shortcut without them too, which is
/// why the most specific shortcut is to be matched first.
pub proof fn specific_shortcut_is_general(event: Event, pattern: Modifiers, key: Key)
    requires
        is_shortcut(event, pattern, key),
    ensures
        is_shortcut(event, Modifiers { shift: false, alt: false, ..pattern }, key),
{
}

/// Once a shortcut with Shift has been consumed, the shortcut without Shift finds only presses
/// without Shift.
pub proof fn specific_shortcut_first(events: Seq<Event>, pattern: Modifiers, key: Key, i: int)
    requires
        pattern.shift,
        0 <= i < shortcuts(
            without_shortcuts(events, pattern, key),
            Modifiers { shift: false, ..pattern },
            key,
        ).len(),
    ensures
        shortcuts(
            without_shortcuts(events, pattern, key),
            Modifiers { shift: false, ..pattern },
            key,
        )[i] matches Event::Key { modifiers, .. } && !modifiers.shift,
{
    let rest = without_shortcuts(events, pattern, key);
    let general = Modifiers { shift: false, ..pattern };
    let hit = |event: Event| is_shortcut(event, general, key);
    let keep = |event: Event| !is_shortcut(event, pattern, key);
    rest.lemma_filter_pred(hit, i);
    let k = lemma_filtered_from(rest, hit, i);
    events.lemma_filter_pred(keep, k);
    assert(hit(rest[k]) && keep(rest[k]));
}

/// An element of a filtered sequence stands somewhere in the sequence.
proof fn lemma_filtered_from(events: Seq<Event>, keep: spec_fn(Event) -> bool, i: int) -> (k: int)
    requires
        0 <= i < events.filter(keep).len(),
    ensures
        0 <= k < events.len(),
        events[k] == events.filter(keep)[i],
    decreases events.len(),
{
    reveal(Seq::filter);
    let rest = events.drop_last().filter(keep);
    if i < rest.len() {
        lemma_filtered_from(events.drop_last(), keep, i)
    } else {
        events.len() - 1
    }
}

/// Whether the event decides whether the key is down.
pub open spec fn decides_key(event: Event, key: Key) -> bool {
    match event {
        Event::Key { key: k, .. } => k == key,
        Event::WindowFocused(focused) => !focused,
        _ => false,
    }
}

/// A key is down if the last event that decides about it is a press: a release, and the loss of
/// the focus, let it up.
pub proof fn last_event_decides_key(keys: Set<Key>, events: Seq<Event>, key: Key, last: int)
    requires
        0 <= last < events.len(),
        decides_key(events[last], key),
        forall|i: int| last < i < events.len() ==> !decides_key(#[trigger] events[i], key),
    ensures
        keys_after_events(keys, events).contains(key) == is_press(events[last], key),
    decreases events.len(),
{
    if last < events.len() - 1 {
        let rest = events.drop_last();
        assert(!decides_key(events[events.len() - 1], key));
        assert forall|i: int| last < i < rest.len() implies !decides_key(#[trigger] rest[i], key) by {
            assert(rest[i] == events[i]);
        }
        last_event_decides_key(keys, rest, key, last);
    }
}

/// A key about which no event decides stays as it was.
pub proof fn undecided_key_stays(keys: Set<Key>, events: Seq<Event>, key: Key)
    requires
        forall|i: int| 0 <= i < events.len() ==> !decides_key(#[trigger] events[i], key),
    ensures
        keys_after_events(keys, events).contains(key) == keys.contains(key),
    decreases events.len(),
{
    if events.len() > 0 {
        let rest = events.drop_last();
        assert(!decides_key(events[events.len() - 1], key));
        assert forall|i: int| 0 <= i < rest.len() implies !decides_key(#[trigger] rest[i], key) by {
            assert(rest[i] == events[i]);
        }
        undecided_key_stays(keys, rest, key);
    }
}

/// No key is down once the window has lost the focus.
pub proof fn lost_focus_releases_all(keys: Set<Key>, events: Seq<Event>)
    requires
        events.len() > 0,
        events.last() == Event::WindowFocused(false),
    ensures
        keys_after_events(keys, events) == Set::<Key>::empty(),
{
}

/// A press is marked as a repetition if and only if its key was down before it. Nothing else
/// about the events changes.
pub proof fn presses_of_held_keys_are_repetitions(keys: Set<Key>, events: Seq<Event>, i: int)
    requires
        0 <= i < events.len(),
    ensures
        all_marked(events, keys).len() == events.len(),
        match (events[i], all_marked(events, keys)[i]) {
            (
                Event::Key { key, physical_key, pressed, repeat, modifiers },
                Event::Key { key: k, physical_key: pk, pressed: p, repeat: r, modifiers: m },
            ) => k == key && pk == physical_key && p == pressed && m == modifiers && r == if pressed {
                keys_after_events(keys, events.take(i)).contains(key)
            } else {
                repeat
            },
            (before, after) => after == before,
        },
{
}

/// If every request to a widget is consumed, the other events are left, in their order.
pub proof fn consumed_requests_are_gone(events: Seq<Event>, id: Id, answers: Seq<bool>)
    requires
        answers.len() == addressed(events, id).len(),
        forall|k: int| 0 <= k < answers.len() ==> #[trigger] answers[k],
    ensures
        without_answered(events, id, answers) == events.filter(|event: Event| !is_addressed(event, id)),
    decreases events.len(),
{
    reveal(Seq::filter);
    if events.len() > 0 {
        let rest = events.drop_last();
        let n = addressed(rest, id).len() as int;
        let earlier = answers.take(n);
        assert forall|k: int| 0 <= k < earlier.len() implies #[trigger] earlier[k] by {
            assert(answers[k]);
        }
        lemma_later_answers(rest, id, answers);
        consumed_requests_are_gone(rest, id, earlier);
        if is_addressed(events.last(), id) {
            assert(answers[n]);
        }
    }
}

/// Answers beyond those that are asked for do not matter.
proof fn lemma_later_answers(events: Seq<Event>, id: Id, answers: Seq<bool>)
    requires
        addressed(events, id).len() <= answers.len(),
    ensures
        without_answered(events, id, answers) == without_answered(
            events,
            id,
            answers.take(addressed(events, id).len() as int),
        ),
    decreases events.len(),
{
    reveal(Seq::filter);
    if events.len() > 0 {
        let rest = events.drop_last();
        let n = addressed(events, id).len() as int;
        let m = addressed(rest, id).len() as int;
        lemma_later_answers(rest, id, answers);
        lemma_later_answers(rest, id, answers.take(n));
        assert(answers.take(n).take(m) =~= answers.take(m));
    }
}

/// If no request is consumed, the events stay as they are.
pub proof fn refused_requests_stay(events: Seq<Event>, id: Id, answers: Seq<bool>)
    requires
        forall|k: int| 0 <= k < answers.len() ==> !#[trigger] answers[k],
    ensures
        without_answered(events, id, answers) == events,
    decreases events.len(),
{
    if events.len() > 0 {
        refused_requests_stay(events.drop_last(), id, answers);
        assert(events.drop_last().push(events.last()) =~= events);
    }
}

// ----------------------------------------------------------------------------
// The pointer

/// A pointer of which nothing has been heard is as it should be.
pub proof fn initial_pointer_is_wf(is_web: bool)
    ensures
        PointerModel::initial(is_web).wf(),
{
}

/// An event keeps the press and the buttons together.
proof fn lemma_event_keeps_press(pointer: PointerModel, event: Event)
    requires
        pointer.holds.len() == 5,
        pointer.press_origin is Some <==> pointer.press_start_time is Some,
        pointer.press_origin is Some ==> pointer.any_down(),
    ensures
        pointer.after_event(event).holds.len() == 5,
        pointer.after_event(event).press_origin is Some <==> pointer.after_event(event).press_start_time is Some,
        pointer.after_event(event).press_origin is Some ==> pointer.after_event(event).any_down(),
{
    let after = pointer.after_event(event);
    if after.press_origin is Some {
        match event {
            Event::PointerButton { button, pressed, .. } => {
                assert(after.holds[button.index() as int] is Some);
            },
            _ => {
                let i = choose|i: int| 0 <= i < pointer.holds.len() && #[trigger] pointer.holds[i] is Some;
                assert(after.holds[i] is Some);
            },
        }
    }
}

/// Events keep the press and the buttons together.
proof fn lemma_events_keep_press(pointer: PointerModel, events: Seq<Event>)
    requires
        pointer.holds.len() == 5,
        pointer.press_origin is Some <==> pointer.press_start_time is Some,
        pointer.press_origin is Some ==> pointer.any_down(),
    ensures
        pointer.after_events(events).holds.len() == 5,
        pointer.after_events(events).press_origin is Some <==> pointer.after_events(
            events,
        ).press_start_time is Some,
        pointer.after_events(events).press_origin is Some ==> pointer.after_events(events).any_down(),
    decreases events.len(),
{
    if events.len() > 0 {
        lemma_events_keep_press(pointer, events.drop_last());
        lemma_event_keeps_press(pointer.after_events(events.drop_last()), events.last());
    }
}

/// What is fresh is no more than there was.
proof fn lemma_fresh_len(values: Seq<(Nanos, Pos2)>, now: Nanos)
    ensures
        crate::history::fresh(values, now).len() <= values.len(),
    decreases values.len(),
{
    if values.len() > crate::history::MIN_LEN && values[0].0 < now - crate::history::MAX_AGE {
        lemma_fresh_len(values.skip(1), now);
    }
}

/// The buttons of one state are those of another.
proof fn lemma_same_holds(a: PointerModel, b: PointerModel)
    requires
        a.holds == b.holds,
    ensures
        a.any_down() == b.any_down(),
{
    assert(forall|i: int| a.holds[i] is Some == b.holds[i] is Some);
}

/// Whether a drag is under way depends on the buttons and on what happened this frame alone.
proof fn lemma_dragging_reads(a: PointerModel, b: PointerModel)
    requires
        a.holds == b.holds,
        a.went_down == b.went_down,
        a.went_up == b.went_up,
        a.pointer_events == b.pointer_events,
        a.has_moved_too_much_for_a_click == b.has_moved_too_much_for_a_click,
        a.time == b.time,
        a.options == b.options,
    ensures
        a.is_decidedly_dragging() == b.is_decidedly_dragging(),
        a.any_down() == b.any_down(),
{
    lemma_same_holds(a, b);
    assert(a.any_click() == b.any_click());
    assert forall|i: int| a.could_be_click(i) == b.could_be_click(i) by {}
    if a.any_down() {
        if a.could_any_button_be_click() {
            let i = choose|i: int| 0 <= i < a.holds.len() && #[trigger] a.could_be_click(i);
            assert(b.could_be_click(i));
        }
        if b.could_any_button_be_click() {
            let i = choose|i: int| 0 <= i < b.holds.len() && #[trigger] b.could_be_click(i);
            assert(a.could_be_click(i));
        }
    }
}

/// Every frame keeps the pointer as it should be. In particular there is no origin of a press
/// and no time of one unless a button is down.
pub proof fn pass_keeps_pointer_wf(
    pointer: PointerModel,
    time: Nanos,
    events: Seq<Event>,
    options: InputOptions,
)
    requires
        pointer.wf(),
    ensures
        pointer.after_pass(time, events, options).wf(),
{
    let started = pointer.frame_started(time, options);
    let stepped = started.after_events(events);
    let after = pointer.after_pass(time, events, options);
    assert(pointer.press_origin is Some ==> started.any_down()) by {
        if pointer.press_origin is Some {
            let i = choose|i: int| 0 <= i < pointer.holds.len() && #[trigger] pointer.holds[i] is Some;
            assert(started.holds[i] is Some);
        }
    }
    lemma_events_keep_press(started, events);
    lemma_dragging_reads(after, stepped);
    let kept = match stepped.latest_pos {
        Some(pos) => crate::history::flushed(stepped.pos_history.push((stepped.time, pos)), stepped.time),
        None => stepped.pos_history,
    };
    lemma_fresh_len(crate::history::newest(kept), stepped.time);
}

/// A press that may still become a click is not a drag.
pub proof fn click_and_drag_exclude_each_other(pointer: PointerModel)
    ensures
        !(pointer.could_any_button_be_click() && pointer.is_decidedly_dragging()),
{
}

/// A drag is not seen in a frame in which a button is pressed, so not in the first one of it.
pub proof fn drag_is_not_seen_when_pressed(pointer: PointerModel)
    requires
        pointer.any_pressed(),
    ensures
        !pointer.is_decidedly_dragging(),
{
}

/// While a button is down there is a drag if and only if the pointer has moved too far since the
/// latest press, or every button that is down has been so for too long or has moved too far for a
/// click, and none was pressed or clicked in this frame.
pub proof fn drag_is_a_long_or_far_press(pointer: PointerModel)
    requires
        pointer.any_down(),
    ensures
        pointer.is_decidedly_dragging() <==> !pointer.any_pressed() && !pointer.any_click() && (
        pointer.has_moved_too_much_for_a_click || forall|i: int|
            0 <= i < pointer.holds.len() ==> (#[trigger] pointer.holds[i] matches Some(hold)
                ==> hold.has_moved_too_much_for_a_click || hold.is_too_long(pointer.time, pointer.options))),
{
    if pointer.could_any_button_be_click() {
        let i = choose|i: int| 0 <= i < pointer.holds.len() && #[trigger] pointer.could_be_click(i);
        assert(pointer.holds[i] is Some);
    } else if !pointer.has_moved_too_much_for_a_click {
        assert(forall|i: int| 0 <= i < pointer.holds.len() ==> !#[trigger] pointer.could_be_click(i));
        assert forall|i: int| 0 <= i < pointer.holds.len() implies (#[trigger] pointer.holds[i] matches Some(hold)
            ==> hold.has_moved_too_much_for_a_click || hold.is_too_long(pointer.time, pointer.options)) by {
            assert(!pointer.could_be_click(i));
        }
    }
}

/// Whether a held button will register as a click is known before it is released: it will if and
/// only if the pointer has moved too far neither from the latest press nor from where the button
/// went down, nor does so with the release, and the button has not been down for too long when it
/// is released.
pub proof fn click_is_foretold(
    pointer: PointerModel,
    time: Nanos,
    pos: Pos2,
    button: PointerButton,
    modifiers: Modifiers,
)
    requires
        pointer.wf(),
    ensures
        ({
            let release = Event::PointerButton { pos, button, pressed: false, modifiers };
            let after = pointer.after_pass(time, seq![release], pointer.options);
            after.any_event(|e: PointerEvent| e.clicks(button)) <==> (pointer.hold(button) matches Some(hold)
                && hold.could_be_click(time, pointer.options) && !hold.origin.farther_than(
                pos,
                pointer.options.max_click_dist,
            ) && !pointer.has_moved_too_much_at(pos))
        }),
{
    let release = Event::PointerButton { pos, button, pressed: false, modifiers };
    let events = seq![release];
    let kind = |e: PointerEvent| e.clicks(button);
    let started = pointer.frame_started(time, pointer.options);
    lemma_frame_ends_with_events(pointer, time, events, pointer.options, kind);
    assert(events.drop_last() =~= Seq::empty());
    assert(started.after_events(events.drop_last()) == started);
    assert(started.after_events(events) == started.after_event(release));
    lemma_event_adds(started, release, kind);
}

/// If no button that is down could be a click, none becomes one by being released later.
pub proof fn what_could_not_be_click_is_none(
    pointer: PointerModel,
    time: Nanos,
    pos: Pos2,
    button: PointerButton,
    modifiers: Modifiers,
)
    requires
        pointer.wf(),
        pointer.any_down(),
        !pointer.could_any_button_be_click(),
        pointer.time <= time,
    ensures
        ({
            let release = Event::PointerButton { pos, button, pressed: false, modifiers };
            let after = pointer.after_pass(time, seq![release], pointer.options);
            !after.any_event(|e: PointerEvent| e.clicks(button))
        }),
{
    click_is_foretold(pointer, time, pos, button, modifiers);
    if !pointer.has_moved_too_much_for_a_click {
        assert(!pointer.could_be_click(button.index() as int));
    }
}

/// A pointer is either still or moving.
pub proof fn pointer_is_still_or_moving(pointer: PointerModel)
    ensures
        pointer.is_still() == !pointer.is_moving(),
{
}

/// A long press is a drag of the primary button that has not moved and was pressed longer ago than
/// a click may take.
pub proof fn long_press_is_a_held_drag(pointer: PointerModel)
    requires
        pointer.wf(),
        pointer.is_long_press(),
    ensures
        pointer.button_down(PointerButton::Primary),
        pointer.is_decidedly_dragging(),
        !pointer.has_moved_too_much_for_a_click,
        pointer.press_start_time matches Some(start) && crate::time::elapsed(pointer.time, start)
            > pointer.options.max_click_duration,
{
}

/// A drag does not start in two frames in a row, so a long press is seen in one frame only.
pub proof fn long_press_is_seen_once(
    pointer: PointerModel,
    time: Nanos,
    events: Seq<Event>,
    options: InputOptions,
)
    requires
        pointer.wf(),
        pointer.is_long_press(),
    ensures
        !pointer.after_pass(time, events, options).started_decidedly_dragging,
        !pointer.after_pass(time, events, options).is_long_press(),
{
}

/// A long press is seen only once as long as the button is held, however many frames that are:
/// the frame after it notes that it has been seen, and every frame from then on keeps the note.
pub proof fn long_press_is_seen_once_per_hold(
    pointer: PointerModel,
    time: Nanos,
    events: Seq<Event>,
    options: InputOptions,
    hold: Hold,
)
    requires
        pointer.wf(),
        pointer.hold(PointerButton::Primary) == Some(hold),
        pointer.is_long_press() || hold.was_long_press,
        forall|i: int| 0 <= i < events.len() ==> !uses_button(#[trigger] events[i], PointerButton::Primary, false),
    ensures
        ({
            let after = pointer.after_pass(time, events, options);
            &&& after.hold(PointerButton::Primary) matches Some(h) && h.was_long_press
            &&& !after.is_long_press()
        }),
{
    let started = pointer.frame_started(time, options);
    assert(started.hold(PointerButton::Primary) matches Some(h) && h.was_long_press);
    lemma_hold_goes_on(started, events, PointerButton::Primary);
}

/// A drag that goes on does not start again, and is no long press.
pub proof fn ongoing_drag_is_no_long_press(
    pointer: PointerModel,
    time: Nanos,
    events: Seq<Event>,
    options: InputOptions,
)
    requires
        pointer.is_decidedly_dragging(),
    ensures
        !pointer.after_pass(time, events, options).started_decidedly_dragging,
        !pointer.after_pass(time, events, options).is_long_press(),
{
}

/// A drag goes on while the button is held: in every frame without a press or a release, as long
/// as time does not run backwards.
pub proof fn drag_goes_on_while_held(
    pointer: PointerModel,
    time: Nanos,
    events: Seq<Event>,
)
    requires
        pointer.wf(),
        pointer.is_decidedly_dragging(),
        pointer.any_down(),
        pointer.time <= time,
        forall|i: int| 0 <= i < events.len() ==> !(#[trigger] events[i] is PointerButton),
    ensures
        pointer.after_pass(time, events, pointer.options).is_decidedly_dragging(),
        pointer.after_pass(time, events, pointer.options).press_origin == pointer.press_origin,
{
    let started = pointer.frame_started(time, pointer.options);
    let stepped = started.after_events(events);
    let after = pointer.after_pass(time, events, pointer.options);
    lemma_no_buttons(started, events);
    drag_is_a_long_or_far_press(pointer);
    assert(stepped.any_down()) by {
        let i = choose|i: int| 0 <= i < pointer.holds.len() && #[trigger] pointer.holds[i] is Some;
        assert(goes_on(started.holds[i], stepped.holds[i]));
        assert(stepped.holds[i] is Some);
    }
    if !pointer.has_moved_too_much_for_a_click {
        assert forall|i: int| 0 <= i < stepped.holds.len() implies (#[trigger] stepped.holds[i] matches Some(hold)
            ==> hold.has_moved_too_much_for_a_click || hold.is_too_long(stepped.time, stepped.options)) by {
            assert(goes_on(started.holds[i], stepped.holds[i]));
            assert(goes_on(pointer.holds[i], started.holds[i]));
        }
    }
    drag_is_a_long_or_far_press(stepped);
    lemma_dragging_reads(after, stepped);
}

/// Whether a button is held as before, but that the pointer may have moved too much since, or a
/// long press may have been seen.
pub open spec fn goes_on(before: Option<Hold>, after: Option<Hold>) -> bool {
    match (before, after) {
        (Some(b), Some(a)) => {
            &&& a.origin == b.origin
            &&& a.start == b.start
            &&& b.has_moved_too_much_for_a_click ==> a.has_moved_too_much_for_a_click
            &&& b.was_long_press ==> a.was_long_press
        },
        (None, None) => true,
        _ => false,
    }
}

/// Events that are no buttons leave the buttons, the press and the clicks alone.
proof fn lemma_no_buttons(pointer: PointerModel, events: Seq<Event>)
    requires
        forall|i: int| 0 <= i < events.len() ==> !(#[trigger] events[i] is PointerButton),
        forall|i: int| 0 <= i < pointer.pointer_events.len() ==> #[trigger] pointer.pointer_events[i] is Moved,
    ensures
        pointer.after_events(events).holds.len() == pointer.holds.len(),
        forall|i: int|
            0 <= i < pointer.holds.len() ==> #[trigger] goes_on(
                pointer.holds[i],
                pointer.after_events(events).holds[i],
            ),
        pointer.after_events(events).went_down == pointer.went_down,
        pointer.after_events(events).went_up == pointer.went_up,
        pointer.after_events(events).press_start_time == pointer.press_start_time,
        pointer.after_events(events).press_origin == pointer.press_origin,
        pointer.after_events(events).time == pointer.time,
        pointer.after_events(events).options == pointer.options,
        pointer.has_moved_too_much_for_a_click ==> pointer.after_events(events).has_moved_too_much_for_a_click,
        forall|i: int|
            0 <= i < pointer.after_events(events).pointer_events.len()
                ==> #[trigger] pointer.after_events(events).pointer_events[i] is Moved,
    decreases events.len(),
{
    if events.len() > 0 {
        let rest = events.drop_last();
        assert forall|i: int| 0 <= i < rest.len() implies !(#[trigger] rest[i] is PointerButton) by {
            assert(rest[i] == events[i]);
        }
        lemma_no_buttons(pointer, rest);
        assert(!(events[events.len() - 1] is PointerButton));
        let before = pointer.after_events(rest);
        let after = pointer.after_events(events);
        assert forall|i: int| 0 <= i < pointer.holds.len() implies #[trigger] goes_on(
            pointer.holds[i],
            after.holds[i],
        ) by {
            assert(goes_on(pointer.holds[i], before.holds[i]));
        }
    }
}

/// Whether the event at the given place presses a button that is up by then, or releases one that
/// is down by then.
pub open spec fn changes_button(pointer: PointerModel, events: Seq<Event>, i: int, press: bool) -> bool {
    events[i] matches Event::PointerButton { button, pressed, .. } && pressed == press && pointer.after_events(
        events.take(i),
    ).button_down(button) != press
}

/// A press is seen in a frame if and only if an event of it presses a button that is up by then,
/// and a release if and only if an event of it releases a button that is down by then.
pub proof fn presses_and_releases_are_changes(
    pointer: PointerModel,
    time: Nanos,
    events: Seq<Event>,
    options: InputOptions,
)
    ensures
        ({
            let started = pointer.frame_started(time, options);
            let after = pointer.after_pass(time, events, options);
            &&& after.any_pressed() <==> exists|i: int|
                0 <= i < events.len() && #[trigger] changes_button(started, events, i, true)
            &&& after.any_released() <==> exists|i: int|
                0 <= i < events.len() && #[trigger] changes_button(started, events, i, false)
        }),
{
    let started = pointer.frame_started(time, options);
    lemma_changes(started, events, true);
    lemma_changes(started, events, false);
}

/// Whether a press, or a release, has been seen.
spec fn change_is_seen(pointer: PointerModel, press: bool) -> bool {
    if press {
        pointer.went_down
    } else {
        pointer.went_up
    }
}

/// What happens at a place of a list of events does not depend on what comes after it.
proof fn lemma_same_change(pointer: PointerModel, events: Seq<Event>, i: int, press: bool)
    requires
        0 <= i < events.len() - 1,
    ensures
        changes_button(pointer, events.drop_last(), i, press) == changes_button(pointer, events, i, press),
{
    assert(events.drop_last().take(i) =~= events.take(i));
}

/// A press or a release is seen after events if it was before or one of them makes it.
proof fn lemma_changes(pointer: PointerModel, events: Seq<Event>, press: bool)
    ensures
        change_is_seen(pointer.after_events(events), press) <==> change_is_seen(pointer, press) || exists|i: int|
            0 <= i < events.len() && #[trigger] changes_button(pointer, events, i, press),
    decreases events.len(),
{
    if events.len() > 0 {
        let n = events.len() - 1;
        let rest = events.drop_last();
        lemma_changes(pointer, rest, press);
        assert(events.take(n) =~= rest);
        let before = pointer.after_events(rest);
        assert(change_is_seen(pointer.after_events(events), press) <==> change_is_seen(before, press)
            || changes_button(pointer, events, n, press));
        if change_is_seen(before, press) && !change_is_seen(pointer, press) {
            let i = choose|i: int| 0 <= i < rest.len() && #[trigger] changes_button(pointer, rest, i, press);
            lemma_same_change(pointer, events, i, press);
        }
        if exists|i: int| 0 <= i < events.len() && #[trigger] changes_button(pointer, events, i, press) {
            let i = choose|i: int| 0 <= i < events.len() && #[trigger] changes_button(pointer, events, i, press);
            if i < n {
                lemma_same_change(pointer, events, i, press);
            }
        }
    }
}

/// Whether the event is a press or a release of the button.
pub open spec fn uses_button(event: Event, button: PointerButton, press: bool) -> bool {
    event matches Event::PointerButton { button: b, pressed, .. } && b == button && pressed == press
}

/// Kinds of what the pointer did are seen if they were seen before or an event brings them.
proof fn lemma_kind_is_seen(
    pointer: PointerModel,
    events: Seq<Event>,
    kind: spec_fn(PointerEvent) -> bool,
    brings: spec_fn(Event) -> bool,
)
    requires
        forall|p: PointerModel, e: Event| #[trigger]
            p.after_event(e).any_event(kind) <==> p.any_event(kind) || brings(e),
    ensures
        pointer.after_events(events).any_event(kind) <==> pointer.any_event(kind) || exists|i: int|
            0 <= i < events.len() && brings(#[trigger] events[i]),
    decreases events.len(),
{
    if events.len() > 0 {
        let rest = events.drop_last();
        lemma_kind_is_seen(pointer, rest, kind, brings);
        let p = pointer.after_events(rest);
        assert(p.after_event(events.last()).any_event(kind) <==> p.any_event(kind) || brings(events.last()));
        if exists|i: int| 0 <= i < rest.len() && brings(#[trigger] rest[i]) {
            let i = choose|i: int| 0 <= i < rest.len() && brings(#[trigger] rest[i]);
            assert(brings(events[i]));
        }
        if brings(events.last()) {
            assert(brings(events[events.len() - 1]));
        }
        if exists|i: int| 0 <= i < events.len() && brings(#[trigger] events[i]) {
            let i = choose|i: int| 0 <= i < events.len() && brings(#[trigger] events[i]);
            if i < rest.len() {
                assert(brings(rest[i]));
            }
        }
    }
}

/// One more thing that the pointer did.
proof fn lemma_pushed(pointer: PointerModel, after: PointerModel, new: PointerEvent, kind: spec_fn(PointerEvent) -> bool)
    requires
        after.pointer_events == pointer.pointer_events.push(new),
    ensures
        after.any_event(kind) <==> pointer.any_event(kind) || kind(new),
{
    let n = pointer.pointer_events.len() as int;
    if pointer.any_event(kind) {
        let i = choose|i: int| 0 <= i < n && kind(#[trigger] pointer.pointer_events[i]);
        assert(after.pointer_events[i] == pointer.pointer_events[i]);
    }
    if kind(new) {
        assert(after.pointer_events[n] == new);
    }
    if after.any_event(kind) {
        let i = choose|i: int| 0 <= i < n + 1 && kind(#[trigger] after.pointer_events[i]);
        if i < n {
            assert(after.pointer_events[i] == pointer.pointer_events[i]);
        }
    }
}

/// A button counts as pressed in a frame if and only if an event of the frame presses it.
pub proof fn pressed_buttons_are_those_of_events(
    pointer: PointerModel,
    time: Nanos,
    events: Seq<Event>,
    options: InputOptions,
    button: PointerButton,
)
    ensures
        pointer.after_pass(time, events, options).any_event(|e: PointerEvent| e.presses(button)) <==> exists|i: int|
            0 <= i < events.len() && uses_button(#[trigger] events[i], button, true),
{
    lemma_used_buttons(pointer, time, events, options, button, true);
}

/// A button counts as released in a frame if and only if an event of the frame releases it.
pub proof fn released_buttons_are_those_of_events(
    pointer: PointerModel,
    time: Nanos,
    events: Seq<Event>,
    options: InputOptions,
    button: PointerButton,
)
    ensures
        pointer.after_pass(time, events, options).any_event(|e: PointerEvent| e.releases(button)) <==> exists|i: int|
            0 <= i < events.len() && uses_button(#[trigger] events[i], button, false),
{
    lemma_used_buttons(pointer, time, events, options, button, false);
}

/// Whether the pointer pressed the button, or released it.
spec fn used(event: PointerEvent, button: PointerButton, press: bool) -> bool {
    if press {
        event.presses(button)
    } else {
        event.releases(button)
    }
}

/// What the pointer did with a button in a frame is what the events of the frame say.
proof fn lemma_used_buttons(
    pointer: PointerModel,
    time: Nanos,
    events: Seq<Event>,
    options: InputOptions,
    button: PointerButton,
    press: bool,
)
    ensures
        pointer.after_pass(time, events, options).any_event(|e: PointerEvent| used(e, button, press)) <==> exists|
            i: int,
        |
            0 <= i < events.len() && uses_button(#[trigger] events[i], button, press),
{
    let kind = |e: PointerEvent| used(e, button, press);
    let brings = |e: Event| uses_button(e, button, press);
    let started = pointer.frame_started(time, options);
    assert forall|p: PointerModel, e: Event| #[trigger]
        p.after_event(e).any_event(kind) <==> p.any_event(kind) || brings(e) by {
        lemma_event_adds(p, e, kind);
    }
    lemma_kind_is_seen(started, events, kind, brings);
    lemma_frame_ends_with_events(pointer, time, events, options, kind);
    if exists|i: int| 0 <= i < events.len() && brings(#[trigger] events[i]) {
        let i = choose|i: int| 0 <= i < events.len() && brings(#[trigger] events[i]);
        assert(uses_button(events[i], button, press));
    }
    if exists|i: int| 0 <= i < events.len() && uses_button(#[trigger] events[i], button, press) {
        let i = choose|i: int| 0 <= i < events.len() && uses_button(#[trigger] events[i], button, press);
        assert(brings(events[i]));
    }
}

/// What an event adds to what the pointer did.
proof fn lemma_event_adds(pointer: PointerModel, event: Event, kind: spec_fn(PointerEvent) -> bool)
    ensures
        pointer.after_event(event).any_event(kind) <==> pointer.any_event(kind) || match event {
            Event::PointerMoved(pos) => kind(PointerEvent::Moved(pos)),
            Event::PointerButton { pos, button, pressed, modifiers } => if pressed {
                kind(PointerEvent::Pressed { position: pos, button })
            } else {
                kind(
                    PointerEvent::Released { click: pointer.click_on_release(pos, button, modifiers), button },
                )
            },
            _ => false,
        },
{
    let after = pointer.after_event(event);
    match event {
        Event::PointerMoved(pos) => lemma_pushed(pointer, after, PointerEvent::Moved(pos), kind),
        Event::PointerButton { pos, button, pressed, modifiers } => if pressed {
            lemma_pushed(pointer, after, PointerEvent::Pressed { position: pos, button }, kind);
        } else {
            lemma_pushed(
                pointer,
                after,
                PointerEvent::Released { click: pointer.click_on_release(pos, button, modifiers), button },
                kind,
            );
        },
        _ => {
            assert(after.pointer_events == pointer.pointer_events);
            assert(after.any_event(kind) == pointer.any_event(kind));
        },
    }
}

/// A frame starts with nothing seen, and its end adds nothing.
proof fn lemma_frame_ends_with_events(
    pointer: PointerModel,
    time: Nanos,
    events: Seq<Event>,
    options: InputOptions,
    kind: spec_fn(PointerEvent) -> bool,
)
    ensures
        !pointer.frame_started(time, options).any_event(kind),
        pointer.after_pass(time, events, options).any_event(kind) == pointer.frame_started(time, options).after_events(
            events,
        ).any_event(kind),
{
    let stepped = pointer.frame_started(time, options).after_events(events);
    let after = pointer.after_pass(time, events, options);
    assert(after.pointer_events == stepped.pointer_events);
}

/// A button is down after events if the last event about it pressed it.
proof fn lemma_last_event_decides_button(pointer: PointerModel, events: Seq<Event>, button: PointerButton, last: int)
    requires
        pointer.holds.len() == 5,
        0 <= last < events.len(),
        events[last] matches Event::PointerButton { button: b, .. } && b == button,
        forall|i: int|
            last < i < events.len() ==> !(#[trigger] events[i] matches Event::PointerButton { button: b, .. } && b
                == button),
    ensures
        pointer.after_events(events).holds.len() == 5,
        pointer.after_events(events).button_down(button) == uses_button(events[last], button, true),
    decreases events.len(),
{
    let rest = events.drop_last();
    lemma_events_keep_buttons(pointer, rest);
    if last < events.len() - 1 {
        let event = events[events.len() - 1];
        assert(!(event matches Event::PointerButton { button: b, .. } && b == button));
        assert forall|i: int| last < i < rest.len() implies !(#[trigger] rest[i] matches Event::PointerButton {
            button: b,
            ..
        } && b == button) by {
            assert(rest[i] == events[i]);
        }
        lemma_last_event_decides_button(pointer, rest, button, last);
    }
}

/// There are as many buttons after events as before.
proof fn lemma_events_keep_buttons(pointer: PointerModel, events: Seq<Event>)
    requires
        pointer.holds.len() == 5,
    ensures
        pointer.after_events(events).holds.len() == 5,
    decreases events.len(),
{
    if events.len() > 0 {
        lemma_events_keep_buttons(pointer, events.drop_last());
    }
}

/// A button is down after a frame if the last event of the frame about it pressed it.
pub proof fn last_event_decides_button(
    pointer: PointerModel,
    time: Nanos,
    events: Seq<Event>,
    options: InputOptions,
    button: PointerButton,
    last: int,
)
    requires
        pointer.wf(),
        0 <= last < events.len(),
        events[last] matches Event::PointerButton { button: b, .. } && b == button,
        forall|i: int|
            last < i < events.len() ==> !(#[trigger] events[i] matches Event::PointerButton { button: b, .. } && b
                == button),
    ensures
        pointer.after_pass(time, events, options).button_down(button) == uses_button(events[last], button, true),
{
    lemma_last_event_decides_button(pointer.frame_started(time, options), events, button, last);
}

/// A button about which there is no event stays as it was.
pub proof fn unused_button_stays(
    pointer: PointerModel,
    time: Nanos,
    events: Seq<Event>,
    options: InputOptions,
    button: PointerButton,
)
    requires
        pointer.wf(),
        forall|i: int|
            0 <= i < events.len() ==> !(#[trigger] events[i] matches Event::PointerButton { button: b, .. } && b
                == button),
    ensures
        pointer.after_pass(time, events, options).button_down(button) == pointer.button_down(button),
{
    lemma_unused_button_stays(pointer.frame_started(time, options), events, button);
}

proof fn lemma_unused_button_stays(pointer: PointerModel, events: Seq<Event>, button: PointerButton)
    requires
        pointer.holds.len() == 5,
        forall|i: int|
            0 <= i < events.len() ==> !(#[trigger] events[i] matches Event::PointerButton { button: b, .. } && b
                == button),
    ensures
        pointer.after_events(events).button_down(button) == pointer.button_down(button),
    decreases events.len(),
{
    if events.len() > 0 {
        let rest = events.drop_last();
        lemma_events_keep_buttons(pointer, rest);
        let event = events[events.len() - 1];
        assert(!(event matches Event::PointerButton { button: b, .. } && b == button));
        assert forall|i: int| 0 <= i < rest.len() implies !(#[trigger] rest[i] matches Event::PointerButton {
            button: b,
            ..
        } && b == button) by {
            assert(rest[i] == events[i]);
        }
        lemma_unused_button_stays(pointer, rest, button);
    }
}

/// A double or a triple click is a click, and a click is a release.
pub proof fn multiple_clicks_are_clicks(pointer: PointerModel, button: PointerButton, count: u32)
    ensures
        pointer.any_event(|e: PointerEvent| e.clicks_times(button, count)) ==> pointer.any_event(
            |e: PointerEvent| e.clicks(button),
        ),
        pointer.any_event(|e: PointerEvent| e.clicks(button)) ==> pointer.any_event(
            |e: PointerEvent| e.releases(button),
        ),
{
    if pointer.any_event(|e: PointerEvent| e.clicks_times(button, count)) {
        let i = choose|i: int|
            0 <= i < pointer.pointer_events.len() && (#[trigger] pointer.pointer_events[i]).clicks_times(button, count);
        assert(pointer.pointer_events[i].clicks(button));
    }
    if pointer.any_event(|e: PointerEvent| e.clicks(button)) {
        let i = choose|i: int|
            0 <= i < pointer.pointer_events.len() && (#[trigger] pointer.pointer_events[i]).clicks(button);
        assert(pointer.pointer_events[i].releases(button));
    }
}

/// A click is single, double or triple. It is triple if and only if its press came less than twice
/// the delay after the release of the click before the last, and else double if and only if its
/// press came less than the delay after the release of the last click.
pub proof fn clicks_in_a_row(pointer: PointerModel, pos: Pos2, button: PointerButton, modifiers: Modifiers, hold: Hold)
    requires
        pointer.wf(),
        pointer.hold(button) == Some(hold),
        hold.could_be_click(pointer.time, pointer.options),
        !hold.origin.farther_than(pos, pointer.options.max_click_dist),
        !pointer.has_moved_too_much_at(pos),
    ensures
        pointer.click_on_release(pos, button, modifiers) matches Some(click) && {
            let delay = pointer.options.max_double_click_delay;
            let since_last = crate::time::elapsed(hold.start, pointer.last_click_time);
            let since_last_last = crate::time::elapsed(hold.start, pointer.last_last_click_time);
            &&& 1 <= click.count <= 3
            &&& click.count == 3 <==> since_last_last < crate::fixed::clamp(2 * delay)
            &&& click.count == 2 <==> since_last < delay && !(since_last_last < crate::fixed::clamp(2 * delay))
        },
{
}

/// A button that is held for too long does not register as a click when it is released, whatever
/// the other buttons do meanwhile.
pub proof fn long_hold_is_no_click(
    pointer: PointerModel,
    events: Seq<Event>,
    pos: Pos2,
    button: PointerButton,
    modifiers: Modifiers,
    hold: Hold,
)
    requires
        pointer.wf(),
        pointer.hold(button) == Some(hold),
        hold.is_too_long(pointer.time, pointer.options),
        forall|i: int| 0 <= i < events.len() ==> !uses_button(#[trigger] events[i], button, false),
    ensures
        pointer.after_events(events).click_on_release(pos, button, modifiers) is None,
{
    lemma_hold_goes_on(pointer, events, button);
}

/// Once the pointer has moved too far from where a button went down, that press does not become a
/// click, wherever the pointer moves then and whatever the other buttons do.
pub proof fn far_move_is_no_click(
    pointer: PointerModel,
    far: Pos2,
    events: Seq<Event>,
    pos: Pos2,
    button: PointerButton,
    modifiers: Modifiers,
    hold: Hold,
)
    requires
        pointer.wf(),
        pointer.hold(button) == Some(hold),
        hold.origin.farther_than(far, pointer.options.max_click_dist),
        forall|i: int| 0 <= i < events.len() ==> !uses_button(#[trigger] events[i], button, false),
    ensures
        pointer.moved(far).after_events(events).click_on_release(pos, button, modifiers) is None,
{
    lemma_hold_goes_on(pointer.moved(far), events, button);
}

/// Once the pointer has moved too far from the latest press, no release of whatever button is a
/// click until the next press.
pub proof fn no_click_after_a_far_move(
    pointer: PointerModel,
    origin: Pos2,
    far: Pos2,
    events: Seq<Event>,
    pos: Pos2,
    button: PointerButton,
    modifiers: Modifiers,
)
    requires
        pointer.press_origin == Some(origin),
        origin.farther_than(far, pointer.options.max_click_dist),
        forall|i: int|
            0 <= i < events.len() ==> !(#[trigger] events[i] matches Event::PointerButton { pressed, .. } && pressed),
    ensures
        pointer.moved(far).after_events(events).has_moved_too_much_for_a_click,
        !pointer.moved(far).after_events(events).could_any_button_be_click(),
        pointer.moved(far).after_events(events).click_on_release(pos, button, modifiers) is None,
{
    lemma_moved_too_much_stays(pointer.moved(far), events);
}

/// That the pointer has moved too much for a click stays so until the next press.
proof fn lemma_moved_too_much_stays(pointer: PointerModel, events: Seq<Event>)
    requires
        pointer.has_moved_too_much_for_a_click,
        forall|i: int|
            0 <= i < events.len() ==> !(#[trigger] events[i] matches Event::PointerButton { pressed, .. } && pressed),
    ensures
        pointer.after_events(events).has_moved_too_much_for_a_click,
    decreases events.len(),
{
    if events.len() > 0 {
        let rest = events.drop_last();
        let last = events[events.len() - 1];
        assert(!(last matches Event::PointerButton { pressed, .. } && pressed));
        assert forall|i: int| 0 <= i < rest.len() implies !(#[trigger] rest[i] matches Event::PointerButton {
            pressed,
            ..
        } && pressed) by {
            assert(rest[i] == events[i]);
        }
        lemma_moved_too_much_stays(pointer, rest);
    }
}

/// A release too far from where the button went down is no click. If no other button is down, the
/// pointer counts as moved too much from then on.
pub proof fn far_release_is_no_click(
    pointer: PointerModel,
    pos: Pos2,
    button: PointerButton,
    modifiers: Modifiers,
    hold: Hold,
)
    requires
        pointer.wf(),
        pointer.hold(button) == Some(hold),
        hold.origin.farther_than(pos, pointer.options.max_click_dist),
    ensures
        pointer.click_on_release(pos, button, modifiers) is None,
        !pointer.others_down(button) ==> pointer.released(pos, button, modifiers).has_moved_too_much_for_a_click,
{
}

/// A release of a button that is not down is no click.
pub proof fn stray_release_is_no_click(
    pointer: PointerModel,
    pos: Pos2,
    button: PointerButton,
    modifiers: Modifiers,
)
    requires
        pointer.wf(),
        !pointer.button_down(button),
    ensures
        pointer.click_on_release(pos, button, modifiers) is None,
        pointer.released(pos, button, modifiers).any_released() == pointer.any_released(),
{
}

/// A button is held until an event releases it.
proof fn lemma_hold_goes_on(pointer: PointerModel, events: Seq<Event>, button: PointerButton)
    requires
        pointer.holds.len() == 5,
        pointer.button_down(button),
        forall|i: int| 0 <= i < events.len() ==> !uses_button(#[trigger] events[i], button, false),
    ensures
        pointer.after_events(events).holds.len() == 5,
        pointer.after_events(events).button_down(button),
        goes_on(pointer.hold(button), pointer.after_events(events).hold(button)),
        pointer.after_events(events).time == pointer.time,
        pointer.after_events(events).options == pointer.options,
    decreases events.len(),
{
    if events.len() > 0 {
        let rest = events.drop_last();
        assert(!uses_button(events[events.len() - 1], button, false));
        assert forall|i: int| 0 <= i < rest.len() implies !uses_button(#[trigger] rest[i], button, false) by {
            assert(rest[i] == events[i]);
        }
        lemma_hold_goes_on(pointer, rest, button);
    }
}

/// The primary button is held without moving, until neither the latest press nor any button that
/// is down could be a click any more: that is a long press.
pub proof fn held_press_becomes_long(
    pointer: PointerModel,
    hold: Hold,
    time: Nanos,
    options: InputOptions,
)
    requires
        pointer.wf(),
        pointer.hold(PointerButton::Primary) == Some(hold),
        !hold.has_moved_too_much_for_a_click,
        !hold.was_long_press,
        !pointer.has_moved_too_much_for_a_click,
        !pointer.is_decidedly_dragging(),
        pointer.press_start_time matches Some(start) && crate::time::elapsed(time, start)
            > options.max_click_duration,
        forall|i: int|
            0 <= i < pointer.holds.len() ==> (#[trigger] pointer.holds[i] matches Some(h) ==> h.is_too_long(
                time,
                options,
            )),
    ensures
        pointer.after_pass(time, Seq::empty(), options).is_long_press(),
{
    let stepped = pointer.frame_started(time, options).after_events(Seq::empty());
    let after = pointer.after_pass(time, Seq::empty(), options);
    let place = PointerButton::Primary.index() as int;
    assert(stepped.holds[place] is Some);
    assert(pointer.holds[place] is Some);
    assert forall|i: int| 0 <= i < stepped.holds.len() implies (#[trigger] stepped.holds[i] matches Some(h)
        ==> h.has_moved_too_much_for_a_click || h.is_too_long(stepped.time, stepped.options)) by {
        assert(goes_on(pointer.holds[i], stepped.holds[i]));
    }
    drag_is_a_long_or_far_press(stepped);
    lemma_dragging_reads(after, stepped);
}

/// The first click ever is a single one.
pub proof fn first_click_is_single(pointer: PointerModel, start: Nanos)
    requires
        pointer.last_click_time == crate::time::NEG_INFINITY,
        pointer.last_last_click_time == crate::time::NEG_INFINITY,
    ensures
        pointer.click_count(start) == 1,
{
}

/// Two clicks in a row, the second pressed less than the delay after the release of the first: a
/// release that makes a click is remembered, so that the next one counts as double or triple.
pub proof fn second_click_is_double(
    pointer: PointerModel,
    pos: Pos2,
    button: PointerButton,
    modifiers: Modifiers,
    later: PointerModel,
    start: Nanos,
)
    requires
        pointer.click_on_release(pos, button, modifiers) is Some,
        later.last_click_time == pointer.released(pos, button, modifiers).last_click_time,
        start >= pointer.time > crate::time::NEG_INFINITY,
        start - pointer.time < later.options.max_double_click_delay,
    ensures
        later.click_count(start) >= 2,
{
}

/// The pointer was last seen at a position, and then left: the position counts for interaction
/// in that frame, and no more in the next.
pub proof fn position_outlives_the_pointer_by_a_frame(
    pointer: PointerModel,
    time: Nanos,
    events: Seq<Event>,
    options: InputOptions,
    next_time: Nanos,
    next_options: InputOptions,
)
    requires
        events.len() > 0,
        events.last() is PointerGone,
    ensures
        pointer.after_pass(time, events, options).latest_pos is None,
        pointer.after_pass(time, events, options).interact_pos == pointer.frame_started(time, options).after_events(
            events.drop_last(),
        ).interact_pos,
        pointer.after_pass(time, events, options).after_pass(
            next_time,
            Seq::empty(),
            next_options,
        ).interact_pos is None,
{
}

/// As long as the pointer does not leave, the position that counts for interaction is the latest.
pub proof fn present_pointer_interacts_where_it_is(
    pointer: PointerModel,
    time: Nanos,
    events: Seq<Event>,
    options: InputOptions,
)
    requires
        !PointerModel::goes(events),
    ensures
        pointer.after_pass(time, events, options).interact_pos == pointer.after_pass(
            time,
            events,
            options,
        ).latest_pos,
{
    lemma_present(pointer.frame_started(time, options), events);
}

proof fn lemma_present(pointer: PointerModel, events: Seq<Event>)
    requires
        pointer.interact_pos == pointer.latest_pos,
        forall|i: int| 0 <= i < events.len() ==> !(#[trigger] events[i] is PointerGone),
    ensures
        pointer.after_events(events).interact_pos == pointer.after_events(events).latest_pos,
    decreases events.len(),
{
    if events.len() > 0 {
        let rest = events.drop_last();
        assert(!(events[events.len() - 1] is PointerGone));
        assert forall|i: int| 0 <= i < rest.len() implies !(#[trigger] rest[i] is PointerGone) by {
            assert(rest[i] == events[i]);
        }
        lemma_present(pointer, rest);
    }
}

/// Motion is known from the first time that the mouse reports it, and starts at zero in each frame.
pub proof fn motion_is_known_once_reported(
    pointer: PointerModel,
    time: Nanos,
    events: Seq<Event>,
    options: InputOptions,
)
    ensures
        pointer.after_pass(time, events, options).motion is Some <==> pointer.motion is Some || exists|i: int|
            0 <= i < events.len() && #[trigger] events[i] is MouseMoved,
        pointer.motion is Some && (forall|i: int| 0 <= i < events.len() ==> !(#[trigger] events[i] is MouseMoved))
            ==> pointer.after_pass(time, events, options).motion == Some(Vec2::zero()),
{
    lemma_motion(pointer.frame_started(time, options), events);
}

proof fn lemma_motion(pointer: PointerModel, events: Seq<Event>)
    ensures
        pointer.after_events(events).motion is Some <==> pointer.motion is Some || exists|i: int|
            0 <= i < events.len() && #[trigger] events[i] is MouseMoved,
        (forall|i: int| 0 <= i < events.len() ==> !(#[trigger] events[i] is MouseMoved))
            ==> pointer.after_events(events).motion == pointer.motion,
    decreases events.len(),
{
    if events.len() > 0 {
        let rest = events.drop_last();
        lemma_motion(pointer, rest);
        assert(forall|i: int| 0 <= i < rest.len() ==> rest[i] == events[i]);
        if events.last() is MouseMoved {
            assert(events[events.len() - 1] is MouseMoved);
        }
        if exists|i: int| 0 <= i < rest.len() && #[trigger] rest[i] is MouseMoved {
            let i = choose|i: int| 0 <= i < rest.len() && #[trigger] rest[i] is MouseMoved;
            assert(events[i] is MouseMoved);
        }
        if exists|i: int| 0 <= i < events.len() && #[trigger] events[i] is MouseMoved {
            let i = choose|i: int| 0 <= i < events.len() && #[trigger] events[i] is MouseMoved;
            assert(i < rest.len() ==> rest[i] is MouseMoved);
        }
    }
}

// ----------------------------------------------------------------------------
// Scrolling

/// A fraction of a number lies between zero and the number.
proof fn lemma_fraction(t: Fixed, n: Fixed)
    requires
        0 <= t.raw <= crate::fixed::SCALE,
    ensures
        n.raw >= 0 ==> 0 <= t.times(n).raw <= n.raw,
        n.raw <= 0 ==> n.raw <= t.times(n).raw <= 0,
{
    let scale = crate::fixed::SCALE as int;
    let (a, b) = (t.raw as int, n.raw as int);
    let m = crate::fixed::magnitude(b);
    assert(crate::fixed::magnitude(a * b) == a * m && (a * b < 0 ==> b < 0) && (b < 0 && a > 0 ==> a * b < 0)
        && (a == 0 ==> a * b == 0)) by (nonlinear_arith)
        requires
            0 <= a,
            m == if b < 0 {
                -b
            } else {
                b
            },
    ;
    assert(0 <= (a * m) / scale <= m) by (nonlinear_arith)
        requires
            0 <= a <= scale,
            scale == 4_294_967_296,
            0 <= m,
    ;
}

/// Smoothing a scroll loses nothing: what is carried out and what is left add up to what was
/// there, unless the sum is out of range.
pub proof fn smoothing_loses_nothing(scroll: Scroll, t: Fixed)
    requires
        0 <= t.raw <= crate::fixed::SCALE,
        i64::MIN <= scroll.smooth_scroll_delta.x.raw + scroll.unprocessed_scroll_delta.x.raw <= i64::MAX,
        i64::MIN <= scroll.smooth_scroll_delta.y.raw + scroll.unprocessed_scroll_delta.y.raw <= i64::MAX,
        i64::MIN <= scroll.smooth_scroll_delta_for_zoom.raw + scroll.unprocessed_scroll_delta_for_zoom.raw
            <= i64::MAX,
    ensures
        ({
            let after = scroll.smoothed(t);
            &&& after.smooth_scroll_delta.x.raw + after.unprocessed_scroll_delta.x.raw
                == scroll.smooth_scroll_delta.x.raw + scroll.unprocessed_scroll_delta.x.raw
            &&& after.smooth_scroll_delta.y.raw + after.unprocessed_scroll_delta.y.raw
                == scroll.smooth_scroll_delta.y.raw + scroll.unprocessed_scroll_delta.y.raw
            &&& after.smooth_scroll_delta_for_zoom.raw + after.unprocessed_scroll_delta_for_zoom.raw
                == scroll.smooth_scroll_delta_for_zoom.raw + scroll.unprocessed_scroll_delta_for_zoom.raw
        }),
{
    lemma_fraction(t, scroll.unprocessed_scroll_delta.x);
    lemma_fraction(t, scroll.unprocessed_scroll_delta.y);
    lemma_fraction(t, scroll.unprocessed_scroll_delta_for_zoom);
}

/// A frame: what goes in, what comes out, and what stands between.
pub struct Frame {
    pub new: RawInput,
    pub requested_immediate_repaint: bool,
    pub pixels_per_point: Fixed,
    pub options: InputOptions,
    pub gestures: Seq<Gesture>,
    /// The smoothing factor.
    pub t: Fixed,
    /// The state before scrolling has zoomed it.
    pub passed: InputState,
    /// The factor that scrolling zooms by.
    pub factor: Fixed,
    pub after: InputState,
}

/// Whether the frame leads on from the given state.
pub open spec fn is_frame(before: InputState, frame: Frame) -> bool {
    &&& before.is_pass(
        frame.new,
        frame.requested_immediate_repaint,
        frame.pixels_per_point,
        frame.options,
        frame.gestures,
        frame.t,
        frame.passed,
    )
    &&& frame.passed.is_zoomed(frame.factor, frame.after)
}

/// The state after the first `n` frames.
pub open spec fn state_after(start: InputState, frames: Seq<Frame>, n: int) -> InputState {
    if n <= 0 {
        start
    } else {
        frames[n - 1].after
    }
}

/// The sum of a number over the states after each of the frames.
pub open spec fn total(frames: Seq<Frame>, number: spec_fn(InputState) -> int) -> int
    decreases frames.len(),
{
    if frames.len() == 0 {
        0
    } else {
        total(frames.drop_last(), number) + number(frames.last().after)
    }
}

/// Whether the event turns the wheel to zoom.
pub open spec fn zooms(event: Event, options: InputOptions) -> bool {
    event matches Event::MouseWheel { modifiers, .. } && modifiers.matches_any(options.zoom_modifier)
}

/// Whether the sum of two scrolls is in range.
pub open spec fn sum_in_range(a: Vec2, b: Vec2) -> bool {
    &&& i64::MIN <= a.x.raw + b.x.raw <= i64::MAX
    &&& i64::MIN <= a.y.raw + b.y.raw <= i64::MAX
}

/// Whether the sums that the event at the given place adds to are in range.
pub open spec fn event_in_range(
    start: Scroll,
    events: Seq<Event>,
    i: int,
    options: InputOptions,
    screen: Rect,
) -> bool {
    events[i] matches Event::MouseWheel { unit, delta, modifiers } ==> {
        let scroll = start.after_events(events.take(i), options, screen);
        let points = crate::scroll::turned(
            crate::scroll::wheel_points(unit, delta, options, screen),
            modifiers,
            options,
        );
        &&& sum_in_range(scroll.raw_scroll_delta, points)
        &&& if crate::scroll::is_smooth(unit, points) {
            sum_in_range(scroll.smooth_scroll_delta, points)
        } else {
            sum_in_range(scroll.unprocessed_scroll_delta, points)
        }
    }
}

/// Whether the sums to which smoothing adds what it carries out, and from which it takes it, are
/// in range.
pub open spec fn smoothing_in_range(scroll: Scroll, t: Fixed) -> bool {
    let pending = scroll.unprocessed_scroll_delta;
    let part = Vec2 { x: crate::scroll::applied(pending.x, t), y: crate::scroll::applied(pending.y, t) };
    &&& sum_in_range(scroll.smooth_scroll_delta, part)
    &&& i64::MIN <= pending.x.raw - part.x.raw <= i64::MAX
    &&& i64::MIN <= pending.y.raw - part.y.raw <= i64::MAX
}

/// Whether all sums of scrolls in a frame are in range.
pub open spec fn frame_in_range(before: InputState, frame: Frame) -> bool {
    let start = Scroll::start(
        before.internal@.unprocessed_scroll_delta,
        before.internal@.unprocessed_scroll_delta_for_zoom,
    );
    let events = frame.new.events@;
    let screen = before.new_screen_rect(frame.new);
    &&& forall|i: int|
        0 <= i < events.len() ==> #[trigger] event_in_range(start, events, i, frame.options, screen)
    &&& smoothing_in_range(start.after_events(events, frame.options, screen), frame.t)
}

/// Smoothing loses and invents nothing from frame to frame: what has been scrolled in any number
/// of frames, together with what is still pending, is what was pending before them together with
/// all that the wheel turned, as long as the wheel does not zoom and the sums are in range.
pub proof fn no_scroll_is_lost(start: InputState, frames: Seq<Frame>)
    requires
        forall|i: int| 0 <= i < frames.len() ==> is_frame(state_after(start, frames, i), #[trigger] frames[i]),
        forall|i: int, k: int|
            0 <= i < frames.len() && 0 <= k < frames[i].new.events@.len() ==> !zooms(
                #[trigger] frames[i].new.events@[k],
                frames[i].options,
            ),
        forall|i: int|
            0 <= i < frames.len() ==> frame_in_range(state_after(start, frames, i), #[trigger] frames[i]),
    ensures
        ({
            let last = state_after(start, frames, frames.len() as int);
            &&& total(frames, |s: InputState| s.smooth_scroll_delta.x.raw as int)
                + last.internal@.unprocessed_scroll_delta.x.raw == start.internal@.unprocessed_scroll_delta.x.raw
                + total(frames, |s: InputState| s.raw_scroll_delta.x.raw as int)
            &&& total(frames, |s: InputState| s.smooth_scroll_delta.y.raw as int)
                + last.internal@.unprocessed_scroll_delta.y.raw == start.internal@.unprocessed_scroll_delta.y.raw
                + total(frames, |s: InputState| s.raw_scroll_delta.y.raw as int)
        }),
    decreases frames.len(),
{
    if frames.len() > 0 {
        let n = frames.len() - 1;
        let rest = frames.drop_last();
        let frame = frames[n];
        let before = state_after(start, frames, n);
        assert forall|i: int| 0 <= i < rest.len() implies is_frame(state_after(start, rest, i), #[trigger] rest[i])
            && frame_in_range(state_after(start, rest, i), rest[i]) by {
            assert(rest[i] == frames[i]);
            assert(state_after(start, rest, i) == state_after(start, frames, i));
        }
        assert forall|i: int, k: int| 0 <= i < rest.len() && 0 <= k < rest[i].new.events@.len() implies !zooms(
            #[trigger] rest[i].new.events@[k],
            rest[i].options,
        ) by {
            assert(!zooms(frames[i].new.events@[k], frames[i].options));
        }
        no_scroll_is_lost(start, rest);
        assert(state_after(start, rest, n) == before);
        assert(is_frame(before, frame) && frame_in_range(before, frame));
        assert forall|k: int| 0 <= k < frame.new.events@.len() implies !zooms(
            #[trigger] frame.new.events@[k],
            frame.options,
        ) by {
            assert(!zooms(frames[n].new.events@[k], frames[n].options));
        }
        lemma_frame_loses_nothing(before, frame);
    }
}

/// One frame loses nothing.
proof fn lemma_frame_loses_nothing(before: InputState, frame: Frame)
    requires
        is_frame(before, frame),
        frame_in_range(before, frame),
        forall|k: int|
            0 <= k < frame.new.events@.len() ==> !zooms(#[trigger] frame.new.events@[k], frame.options),
    ensures
        ({
            let pending = before.internal@.unprocessed_scroll_delta;
            let left = frame.after.internal@.unprocessed_scroll_delta;
            &&& frame.after.smooth_scroll_delta.x.raw + left.x.raw == pending.x.raw
                + frame.after.raw_scroll_delta.x.raw
            &&& frame.after.smooth_scroll_delta.y.raw + left.y.raw == pending.y.raw
                + frame.after.raw_scroll_delta.y.raw
        }),
{
    let start = Scroll::start(
        before.internal@.unprocessed_scroll_delta,
        before.internal@.unprocessed_scroll_delta_for_zoom,
    );
    let screen = before.new_screen_rect(frame.new);
    lemma_events_lose_nothing(start, frame.new.events@, frame.options, screen);
    let scroll = start.after_events(frame.new.events@, frame.options, screen);
    lemma_step_loses_nothing(scroll, frame.t);
}

/// Smoothing only moves scrolls from what is pending to what is carried out.
proof fn lemma_step_loses_nothing(scroll: Scroll, t: Fixed)
    requires
        smoothing_in_range(scroll, t),
    ensures
        ({
            let after = scroll.smoothed(t);
            &&& after.raw_scroll_delta == scroll.raw_scroll_delta
            &&& after.smooth_scroll_delta.x.raw + after.unprocessed_scroll_delta.x.raw
                == scroll.smooth_scroll_delta.x.raw + scroll.unprocessed_scroll_delta.x.raw
            &&& after.smooth_scroll_delta.y.raw + after.unprocessed_scroll_delta.y.raw
                == scroll.smooth_scroll_delta.y.raw + scroll.unprocessed_scroll_delta.y.raw
        }),
{
}

/// Events put all that the wheel turns into what is carried out or what is pending.
proof fn lemma_events_lose_nothing(start: Scroll, events: Seq<Event>, options: InputOptions, screen: Rect)
    requires
        forall|k: int| 0 <= k < events.len() ==> !zooms(#[trigger] events[k], options),
        forall|i: int|
            0 <= i < events.len() ==> #[trigger] event_in_range(start, events, i, options, screen),
    ensures
        ({
            let after = start.after_events(events, options, screen);
            &&& after.smooth_scroll_delta.x.raw + after.unprocessed_scroll_delta.x.raw - after.raw_scroll_delta.x.raw
                == start.smooth_scroll_delta.x.raw + start.unprocessed_scroll_delta.x.raw
                - start.raw_scroll_delta.x.raw
            &&& after.smooth_scroll_delta.y.raw + after.unprocessed_scroll_delta.y.raw - after.raw_scroll_delta.y.raw
                == start.smooth_scroll_delta.y.raw + start.unprocessed_scroll_delta.y.raw
                - start.raw_scroll_delta.y.raw
        }),
    decreases events.len(),
{
    if events.len() > 0 {
        let n = events.len() - 1;
        let rest = events.drop_last();
        assert forall|k: int| 0 <= k < rest.len() implies !zooms(#[trigger] rest[k], options) by {
            assert(rest[k] == events[k]);
        }
        assert forall|i: int| 0 <= i < rest.len() implies #[trigger] event_in_range(
            start,
            rest,
            i,
            options,
            screen,
        ) by {
            assert(event_in_range(start, events, i, options, screen));
            assert(rest.take(i) =~= events.take(i));
        }
        lemma_events_lose_nothing(start, rest, options, screen);
        assert(events.take(n) =~= rest);
        assert(!zooms(events[n], options));
        assert(event_in_range(start, events, n, options, screen));
    }
}

/// Whether `after` lies between zero and `before`.
pub open spec fn no_farther(after: Fixed, before: Fixed) -> bool {
    ||| 0 <= after.raw <= before.raw
    ||| before.raw <= after.raw <= 0
}

/// Smoothing leaves no more to do than there was, and nothing of what was less than a point.
pub proof fn smoothing_leaves_less(scroll: Scroll, t: Fixed)
    requires
        0 <= t.raw <= crate::fixed::SCALE,
    ensures
        ({
            let after = scroll.smoothed(t);
            let one = Fixed::from_int(1);
            &&& no_farther(after.unprocessed_scroll_delta.x, scroll.unprocessed_scroll_delta.x)
            &&& no_farther(after.unprocessed_scroll_delta.y, scroll.unprocessed_scroll_delta.y)
            &&& no_farther(after.unprocessed_scroll_delta_for_zoom, scroll.unprocessed_scroll_delta_for_zoom)
            &&& scroll.unprocessed_scroll_delta.x.within(one) ==> after.unprocessed_scroll_delta.x.raw == 0
            &&& scroll.unprocessed_scroll_delta.y.within(one) ==> after.unprocessed_scroll_delta.y.raw == 0
            &&& scroll.unprocessed_scroll_delta_for_zoom.within(one)
                ==> after.unprocessed_scroll_delta_for_zoom.raw == 0
        }),
{
    lemma_fraction(t, scroll.unprocessed_scroll_delta.x);
    lemma_fraction(t, scroll.unprocessed_scroll_delta.y);
    lemma_fraction(t, scroll.unprocessed_scroll_delta_for_zoom);
}

/// A scroll that is treated as horizontal, or as vertical, does not act along the other axis.
pub proof fn one_axis_modifiers_leave_one_axis(delta: Vec2, modifiers: Modifiers, options: InputOptions)
    ensures
        crate::scroll::only_horizontal(modifiers, options) ==> crate::scroll::turned(
            delta,
            modifiers,
            options,
        ).y.raw == 0,
        crate::scroll::only_vertical(modifiers, options) ==> crate::scroll::turned(
            delta,
            modifiers,
            options,
        ).x.raw == 0,
        !(crate::scroll::only_horizontal(modifiers, options) && crate::scroll::only_vertical(modifiers, options)),
{
}

/// When the zoom modifier is down, the wheel zooms and does not scroll.
pub proof fn zoom_modifier_zooms(
    scroll: Scroll,
    unit: crate::data::MouseWheelUnit,
    delta: Vec2,
    modifiers: Modifiers,
    options: InputOptions,
    screen: Rect,
)
    requires
        modifiers.matches_any(options.zoom_modifier),
    ensures
        ({
            let after = scroll.after_event(Event::MouseWheel { unit, delta, modifiers }, options, screen);
            &&& after.smooth_scroll_delta == scroll.smooth_scroll_delta
            &&& after.unprocessed_scroll_delta == scroll.unprocessed_scroll_delta
        }),
{
}

// ----------------------------------------------------------------------------
// Touches

/// Whether the event puts the finger down or lifts it.
pub open spec fn decides_touch(event: Event, device_id: TouchDeviceId, id: u64) -> bool {
    event matches Event::Touch { device_id: device, id: i, phase, .. } && device == device_id && i.value == id
        && !(phase is Move)
}

/// Whether the event puts the finger down.
pub open spec fn starts_touch(event: Event, device_id: TouchDeviceId, id: u64) -> bool {
    event matches Event::Touch { device_id: device, id: i, phase: TouchPhase::Start, .. } && device == device_id
        && i.value == id
}

/// A finger is down if the last event that put it down or lifted it put it down.
pub proof fn last_event_decides_touch(
    device_id: TouchDeviceId,
    touches: Map<u64, ActiveTouch>,
    events: Seq<Event>,
    id: u64,
    last: int,
)
    requires
        0 <= last < events.len(),
        decides_touch(events[last], device_id, id),
        forall|i: int| last < i < events.len() ==> !decides_touch(#[trigger] events[i], device_id, id),
    ensures
        crate::touch::touches_after_events(device_id, touches, events).contains_key(id) == starts_touch(
            events[last],
            device_id,
            id,
        ),
    decreases events.len(),
{
    if last < events.len() - 1 {
        let rest = events.drop_last();
        assert(!decides_touch(events[events.len() - 1], device_id, id));
        assert forall|i: int| last < i < rest.len() implies !decides_touch(#[trigger] rest[i], device_id, id) by {
            assert(rest[i] == events[i]);
        }
        last_event_decides_touch(device_id, touches, rest, id, last);
    }
}

/// A finger that no event puts down or lifts stays as it was.
pub proof fn undecided_touch_stays(
    device_id: TouchDeviceId,
    touches: Map<u64, ActiveTouch>,
    events: Seq<Event>,
    id: u64,
)
    requires
        forall|i: int| 0 <= i < events.len() ==> !decides_touch(#[trigger] events[i], device_id, id),
    ensures
        crate::touch::touches_after_events(device_id, touches, events).contains_key(id) == touches.contains_key(id),
    decreases events.len(),
{
    if events.len() > 0 {
        let rest = events.drop_last();
        assert(!decides_touch(events[events.len() - 1], device_id, id));
        assert forall|i: int| 0 <= i < rest.len() implies !decides_touch(#[trigger] rest[i], device_id, id) by {
            assert(rest[i] == events[i]);
        }
        undecided_touch_stays(device_id, touches, rest, id);
    }
}

/// There is no multi-touch gesture unless two fingers are down on one device.
pub proof fn gesture_takes_two_fingers(devices: Map<u64, TouchModel>)
    requires
        forall|id: u64| #[trigger] devices.contains_key(id) ==> devices[id].active_touches.len() < 2,
    ensures
        crate::devices::multi_touch(devices) is None,
{
    crate::devices::lemma_first_gesture(devices, None);
}

/// A touch device that has been seen is never forgotten, and one is seen if and only if a touch
/// comes from it.
pub proof fn touch_devices_are_remembered(
    devices: Map<u64, TouchModel>,
    events: Seq<Event>,
    gestures: Seq<Gesture>,
    id: u64,
)
    ensures
        crate::devices::after_pass(
            crate::devices::with_new_devices(devices, events),
            events,
            gestures,
        ).contains_key(id) <==> devices.contains_key(id) || crate::devices::touched(events, id),
{
}

// ----------------------------------------------------------------------------
// The whole

/// What holds of every input state: the pointer is as it should be, and each touch device is
/// found under its own number.
pub open spec fn input_wf(state: InputState) -> bool {
    &&& state.pointer@.wf()
    &&& forall|id: u64| #[trigger]
        state.internal@.touch_states.contains_key(id) ==> state.internal@.touch_states[id].device_id.value == id
}

/// An input state to which nothing has happened is as it should be.
pub proof fn initial_input_is_wf(state: InputState, is_web: bool)
    requires
        state.is_initial(is_web),
    ensures
        input_wf(state),
{
}

/// Every frame keeps the input state as it should be.
pub proof fn pass_keeps_input_wf(
    state: InputState,
    new: RawInput,
    requested_immediate_repaint: bool,
    pixels_per_point: Fixed,
    options: InputOptions,
    gestures: Seq<Gesture>,
    t: Fixed,
    passed: InputState,
    factor: Fixed,
    after: InputState,
)
    requires
        input_wf(state),
        state.is_pass(new, requested_immediate_repaint, pixels_per_point, options, gestures, t, passed),
        passed.is_zoomed(factor, after),
    ensures
        input_wf(after),
{
    pass_keeps_pointer_wf(
        state.pointer@,
        crate::input::frame_time(state.time, new),
        new.events@,
        options,
    );
    assert forall|id: u64| #[trigger] after.internal@.touch_states.contains_key(id) implies
        after.internal@.touch_states[id].device_id.value == id by {
        touch_devices_are_remembered(state.internal@.touch_states, new.events@, gestures, id);
        if state.internal@.touch_states.contains_key(id) {
            assert(state.internal@.touch_states[id].device_id.value == id);
        }
    }
}

/// Whatever happens in a frame asks for another one at once, if that is looked at before events
/// are consumed.
pub proof fn events_want_repaint(
    state: InputState,
    new: RawInput,
    requested_immediate_repaint: bool,
    pixels_per_point: Fixed,
    options: InputOptions,
    gestures: Seq<Gesture>,
    t: Fixed,
    passed: InputState,
    factor: Fixed,
    after: InputState,
)
    requires
        new.events@.len() > 0,
        state.is_pass(new, requested_immediate_repaint, pixels_per_point, options, gestures, t, passed),
        passed.is_zoomed(factor, after),
    ensures
        after.repaint_wait() == Some(0i64),
        after.events@ == after.raw.events@,
        after.events@.len() == new.events@.len(),
{
}

/// A repaint is not waited for in the past, and is put off only while a finger is down.
pub proof fn repaint_wait_is_for_held_touches(state: InputState)
    ensures
        state.repaint_wait() matches Some(wait) ==> {
            &&& wait >= 0
            &&& wait > 0 ==> crate::devices::any_touches(state.internal@.touch_states)
            &&& wait > 0 ==> state.pointer@.press_start_time is Some
        },
{
}

/// The wait is for the long press: if the primary button is held still, it is seen as a long press
/// in a frame after the wait in which nothing happens.
pub proof fn long_press_is_waited_for(state: InputState, start: Nanos, hold: Hold, wait: Nanos, time: Nanos)
    requires
        state.pointer@.wf(),
        state.repaint_wait() == Some(wait),
        wait > 0,
        state.pointer@.press_start_time == Some(start),
        start <= state.time,
        forall|i: int|
            0 <= i < state.pointer@.holds.len() ==> (#[trigger] state.pointer@.holds[i] matches Some(h)
                ==> h.start <= start),
        state.pointer@.hold(PointerButton::Primary) == Some(hold),
        !hold.has_moved_too_much_for_a_click,
        !hold.was_long_press,
        !state.pointer@.has_moved_too_much_for_a_click,
        time > state.time + wait,
    ensures
        state.pointer@.after_pass(time, Seq::empty(), state.internal@.options).is_long_press(),
{
    let options = state.internal@.options;
    assert forall|i: int| 0 <= i < state.pointer@.holds.len() implies (#[trigger] state.pointer@.holds[i] matches Some(
        h,
    ) ==> h.is_too_long(time, options)) by {}
    held_press_becomes_long(state.pointer@, hold, time, options);
}

// ----------------------------------------------------------------------------
// Options

/// Whether the options lie in the ranges that the form keeps to.
pub open spec fn options_in_range(options: InputOptions) -> bool {
    &&& options.line_scroll_speed.raw >= 0
    &&& options.scroll_zoom_speed.raw >= 0
    &&& options.max_click_dist.raw >= 0
    &&& options.max_click_duration >= crate::ui::LEAST_CLICK_DURATION
    &&& options.max_double_click_delay >= crate::ui::LEAST_DOUBLE_CLICK_DELAY
}

/// The default options are in range.
pub proof fn default_options_in_range(is_web: bool)
    ensures
        options_in_range(InputOptions::for_platform(is_web)),
{
}

/// An option that is changed in the form takes the value that is entered if that is in its range,
/// and a value in its range in any case.
pub proof fn form_takes_what_is_in_range(options: InputOptions, setting: Setting)
    ensures
        setting.range().holds(setting.current(options.with(setting))),
        setting.range().holds(setting) ==> setting.current(options.with(setting)) == setting,
{
}

/// Whatever is entered in the form, the options stay in range.
pub proof fn form_keeps_options_in_range(options: InputOptions, setting: Setting)
    requires
        options_in_range(options),
    ensures
        options_in_range(options.with(setting)),
{
}

} // verus!
