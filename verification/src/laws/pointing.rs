//! What the pointer makes of its events, one by one and over a frame.

use crate::data::{Event, PointerButton};
use crate::geometry::{Pos2, Vec2};
use crate::history::{duration, flushed, fresh, newest, velocity};
use crate::modifiers::Modifiers;
use crate::options::InputOptions;
use crate::pointer::{Hold, PointerEvent, PointerModel};
use crate::time::Nanos;
use vstd::prelude::*;

verus! {

// ----------------------------------------------------------------------------
// Recent positions

/// Of recent positions the newest are kept, in their order: a thousand at most, and of those none
/// older than a tenth of a second but for the last two. None is forgotten that could be kept.
pub proof fn old_positions_are_forgotten(values: Seq<(Nanos, Pos2)>, now: Nanos)
    ensures
        ({
            let kept = flushed(values, now);
            let gone = values.len() - kept.len();
            &&& gone >= 0
            &&& kept == values.skip(gone)
            &&& kept.len() <= 1000
            &&& values.len() <= 2 ==> kept == values
            &&& values.len() >= 2 ==> kept.len() >= 2
            &&& kept.len() > 2 ==> kept[0].0 >= now - 100_000_000
            &&& forall|i: int|
                0 <= i < gone ==> (#[trigger] values[i]).0 < now - 100_000_000 || values.len() - i > 1000
        }),
{
    let new = newest(values);
    let dropped = values.len() - new.len();
    assert(new =~= values.skip(dropped));
    lemma_fresh(new, now);
    let kept = flushed(values, now);
    let gone = values.len() - kept.len();
    let old = new.len() - kept.len();
    assert(values.skip(dropped).skip(old) =~= values.skip(gone));
    assert forall|i: int| 0 <= i < gone implies (#[trigger] values[i]).0 < now - 100_000_000 || values.len() - i > 1000 by {
        if i >= dropped {
            assert(new[i - dropped] == values[i]);
        }
    }
    if values.len() <= 2 {
        assert(values.skip(0) =~= values);
    }
}

proof fn lemma_fresh(values: Seq<(Nanos, Pos2)>, now: Nanos)
    ensures
        ({
            let kept = fresh(values, now);
            let gone = values.len() - kept.len();
            &&& gone >= 0
            &&& kept == values.skip(gone)
            &&& values.len() <= 2 ==> kept == values
            &&& values.len() >= 2 ==> kept.len() >= 2
            &&& kept.len() > 2 ==> kept[0].0 >= now - 100_000_000
            &&& forall|i: int| 0 <= i < gone ==> (#[trigger] values[i]).0 < now - 100_000_000
        }),
    decreases values.len(),
{
    if values.len() > 2 && values[0].0 < now - 100_000_000 {
        let rest = values.skip(1);
        lemma_fresh(rest, now);
        let kept = fresh(values, now);
        let gone = values.len() - kept.len();
        assert(rest.skip(gone - 1) =~= values.skip(gone));
        assert forall|i: int| 0 <= i < gone implies (#[trigger] values[i]).0 < now - 100_000_000 by {
            if i > 0 {
                assert(rest[i - 1] == values[i]);
            }
        }
    } else {
        assert(values.skip(0) =~= values);
    }
}

/// Recent positions last from the first to the last of them, and show how fast the pointer got from
/// the one to the other, if that took any time.
pub proof fn recent_positions_show_a_velocity(values: Seq<(Nanos, Pos2)>)
    requires
        values.len() > 0,
        i64::MIN <= values.last().0 - values[0].0 <= i64::MAX,
        i64::MIN <= values.last().1.x.raw - values[0].1.x.raw <= i64::MAX,
        i64::MIN <= values.last().1.y.raw - values[0].1.y.raw <= i64::MAX,
    ensures
        ({
            let span = values.last().0 - values[0].0;
            &&& duration(values) == span
            &&& span <= 0 ==> velocity(values) is None
            &&& span > 0 ==> (velocity(values) matches Some(v) && super::numbers::rounds_in_range(
                v.x.raw,
                (values.last().1.x.raw - values[0].1.x.raw) * 1_000_000_000,
                span,
            ) && super::numbers::rounds_in_range(
                v.y.raw,
                (values.last().1.y.raw - values[0].1.y.raw) * 1_000_000_000,
                span,
            ))
        }),
{
    let span = values.last().0 - values[0].0;
    if span > 0 {
        super::numbers::velocities_are_displacements_over_time(values.last().1.minus(values[0].1), span as i64);
    }
}

/// No positions show no velocity.
pub proof fn no_positions_show_nothing()
    ensures
        duration(Seq::<(Nanos, Pos2)>::empty()) == 0,
        velocity(Seq::<(Nanos, Pos2)>::empty()) is None,
{
}

// ----------------------------------------------------------------------------
// Lists of events

/// Events act one after the other: what two lists do is what the second does after the first.
pub proof fn events_act_one_after_the_other(pointer: PointerModel, first: Seq<Event>, second: Seq<Event>)
    ensures
        pointer.after_events(first + second) == pointer.after_events(first).after_events(second),
        pointer.after_events(Seq::empty()) == pointer,
    decreases second.len(),
{
    if second.len() == 0 {
        assert(first + second =~= first);
    } else {
        assert((first + second).drop_last() =~= first + second.drop_last());
        events_act_one_after_the_other(pointer, first, second.drop_last());
    }
}

/// Where an event says that the pointer is: at a position, or nowhere; or nothing about it.
pub open spec fn place(event: Event) -> Option<Option<Pos2>> {
    match event {
        Event::PointerMoved(pos) => Some(Some(pos)),
        Event::PointerButton { pos, .. } => Some(Some(pos)),
        Event::PointerGone => Some(None),
        _ => None,
    }
}

/// After a frame the pointer is where the last event of the frame that says so has it, and where it
/// was if none does.
pub proof fn the_pointer_is_where_it_was_last(
    pointer: PointerModel,
    time: Nanos,
    events: Seq<Event>,
    options: InputOptions,
    last: int,
)
    requires
        -1 <= last < events.len(),
        last >= 0 ==> place(events[last]) is Some,
        forall|i: int| last < i < events.len() ==> place(#[trigger] events[i]) is None,
    ensures
        pointer.after_pass(time, events, options).latest_pos == if last >= 0 {
            place(events[last])->0
        } else {
            pointer.latest_pos
        },
{
    lemma_latest_pos(pointer.frame_started(time, options), events, last);
}

proof fn lemma_latest_pos(pointer: PointerModel, events: Seq<Event>, last: int)
    requires
        -1 <= last < events.len(),
        last >= 0 ==> place(events[last]) is Some,
        forall|i: int| last < i < events.len() ==> place(#[trigger] events[i]) is None,
    ensures
        pointer.after_events(events).latest_pos == if last >= 0 {
            place(events[last])->0
        } else {
            pointer.latest_pos
        },
    decreases events.len(),
{
    if events.len() > 0 && last < events.len() - 1 {
        let rest = events.drop_last();
        assert(place(events[events.len() - 1]) is None);
        assert forall|i: int| last < i < rest.len() implies place(#[trigger] rest[i]) is None by {
            assert(rest[i] == events[i]);
        }
        lemma_latest_pos(pointer, rest, last);
    }
}

/// For interaction the pointer is where the last move or button of the frame has it, though it may
/// have left since, and where it was before the frame if there is none.
pub proof fn interaction_is_where_the_pointer_acted_last(
    pointer: PointerModel,
    time: Nanos,
    events: Seq<Event>,
    options: InputOptions,
    last: int,
)
    requires
        -1 <= last < events.len(),
        last >= 0 ==> (place(events[last]) matches Some(pos) && pos is Some),
        forall|i: int|
            last < i < events.len() ==> !(place(#[trigger] events[i]) matches Some(pos) && pos is Some),
    ensures
        pointer.after_pass(time, events, options).interact_pos == if last >= 0 {
            place(events[last])->0
        } else {
            pointer.latest_pos
        },
{
    lemma_interact_pos(pointer.frame_started(time, options), events, last);
}

proof fn lemma_interact_pos(pointer: PointerModel, events: Seq<Event>, last: int)
    requires
        -1 <= last < events.len(),
        last >= 0 ==> (place(events[last]) matches Some(pos) && pos is Some),
        forall|i: int|
            last < i < events.len() ==> !(place(#[trigger] events[i]) matches Some(pos) && pos is Some),
    ensures
        pointer.after_events(events).interact_pos == if last >= 0 {
            place(events[last])->0
        } else {
            pointer.interact_pos
        },
    decreases events.len(),
{
    if events.len() > 0 && last < events.len() - 1 {
        let rest = events.drop_last();
        assert(!(place(events[events.len() - 1]) matches Some(pos) && pos is Some));
        assert forall|i: int| last < i < rest.len() implies !(place(#[trigger] rest[i]) matches Some(pos)
            && pos is Some) by {
            assert(rest[i] == events[i]);
        }
        lemma_interact_pos(pointer, rest, last);
    }
}

/// The press has its origin and its time from the last button of the frame if that is pressed, and
/// there is none if it is released. Without a button in the frame the press is that of before.
pub proof fn the_last_button_decides_the_press(
    pointer: PointerModel,
    time: Nanos,
    events: Seq<Event>,
    options: InputOptions,
    last: int,
)
    requires
        -1 <= last < events.len(),
        last >= 0 ==> events[last] is PointerButton,
        forall|i: int| last < i < events.len() ==> !(#[trigger] events[i] is PointerButton),
    ensures
        ({
            let after = pointer.after_pass(time, events, options);
            if last >= 0 {
                match events[last] {
                    Event::PointerButton { pos, pressed: true, .. } => after.press_origin == Some(pos)
                        && after.press_start_time == Some(time),
                    _ => after.press_origin is None && after.press_start_time is None,
                }
            } else {
                after.press_origin == pointer.press_origin && after.press_start_time == pointer.press_start_time
            }
        }),
{
    lemma_press(pointer.frame_started(time, options), events, last);
}

proof fn lemma_press(pointer: PointerModel, events: Seq<Event>, last: int)
    requires
        -1 <= last < events.len(),
        last >= 0 ==> events[last] is PointerButton,
        forall|i: int| last < i < events.len() ==> !(#[trigger] events[i] is PointerButton),
    ensures
        ({
            let after = pointer.after_events(events);
            &&& after.time == pointer.time
            &&& if last >= 0 {
                match events[last] {
                    Event::PointerButton { pos, pressed: true, .. } => after.press_origin == Some(pos)
                        && after.press_start_time == Some(pointer.time),
                    _ => after.press_origin is None && after.press_start_time is None,
                }
            } else {
                after.press_origin == pointer.press_origin && after.press_start_time == pointer.press_start_time
            }
        }),
    decreases events.len(),
{
    super::frames::lemma_events_keep_time_and_options(pointer, events);
    if events.len() > 0 {
        let rest = events.drop_last();
        super::frames::lemma_events_keep_time_and_options(pointer, rest);
        if last < events.len() - 1 {
            assert(!(events[events.len() - 1] is PointerButton));
            assert forall|i: int| last < i < rest.len() implies !(#[trigger] rest[i] is PointerButton) by {
                assert(rest[i] == events[i]);
            }
            lemma_press(pointer, rest, last);
        }
    }
}

/// The delta of a frame is the difference of where the pointer is after it and where it was before,
/// and zero if it is not there before or after.
pub proof fn the_delta_is_from_frame_to_frame(
    pointer: PointerModel,
    time: Nanos,
    events: Seq<Event>,
    options: InputOptions,
)
    ensures
        ({
            let after = pointer.after_pass(time, events, options);
            match (pointer.latest_pos, after.latest_pos) {
                (Some(from), Some(to)) => {
                    &&& i64::MIN <= to.x.raw - from.x.raw <= i64::MAX ==> after.delta.x.raw == to.x.raw - from.x.raw
                    &&& i64::MIN <= to.y.raw - from.y.raw <= i64::MAX ==> after.delta.y.raw == to.y.raw - from.y.raw
                },
                _ => after.delta.x.raw == 0 && after.delta.y.raw == 0,
            }
        }),
{
}

/// A report of the mouse adds to the motion of the frame, which starts at zero.
pub proof fn reports_add_to_the_motion(
    pointer: PointerModel,
    delta: Vec2,
    time: Nanos,
    options: InputOptions,
)
    ensures
        ({
            let (x, y) = match pointer.motion {
                Some(motion) => (motion.x.raw as int, motion.y.raw as int),
                None => (0, 0),
            };
            pointer.after_event(Event::MouseMoved(delta)).motion matches Some(motion) && {
                &&& i64::MIN <= x + delta.x.raw <= i64::MAX ==> motion.x.raw == x + delta.x.raw
                &&& i64::MIN <= y + delta.y.raw <= i64::MAX ==> motion.y.raw == y + delta.y.raw
            }
        }),
        pointer.motion is None ==> pointer.frame_started(time, options).motion is None,
        pointer.motion is Some ==> (pointer.frame_started(time, options).motion matches Some(motion) && motion.x.raw
            == 0 && motion.y.raw == 0),
{
}

/// What is neither a move nor a button nor a report of the mouse, and not the pointer leaving, does
/// nothing to the pointer. A report of the mouse changes the motion alone, and leaving where the
/// pointer is alone.
pub proof fn other_events_do_nothing(pointer: PointerModel, event: Event)
    ensures
        !(event is PointerMoved) && !(event is PointerButton) && !(event is MouseMoved) && !(event is PointerGone)
            ==> pointer.after_event(event) == pointer,
        event is MouseMoved ==> pointer.after_event(event) == (PointerModel {
            motion: pointer.after_event(event).motion,
            ..pointer
        }),
        event is PointerGone ==> pointer.after_event(event) == (PointerModel { latest_pos: None, ..pointer }),
{
}

/// The pointer moved just now in a frame with a move, or in which it shows a velocity. Else it moved
/// as long ago as before.
pub proof fn movement_is_remembered(
    pointer: PointerModel,
    time: Nanos,
    events: Seq<Event>,
    options: InputOptions,
)
    ensures
        ({
            let after = pointer.after_pass(time, events, options);
            let moves = exists|i: int| 0 <= i < events.len() && #[trigger] events[i] is PointerMoved;
            let shows = after.velocity.x.raw != 0 || after.velocity.y.raw != 0;
            &&& moves || shows ==> after.last_move_time == time
            &&& !moves && !shows ==> after.last_move_time == pointer.last_move_time
        }),
{
    let started = pointer.frame_started(time, options);
    lemma_last_move(started, events);
    super::frames::lemma_events_keep_time_and_options(started, events);
    super::numbers::no_vector_is_zero_on_both_axes(pointer.after_pass(time, events, options).velocity);
}

proof fn lemma_last_move(pointer: PointerModel, events: Seq<Event>)
    ensures
        (exists|i: int| 0 <= i < events.len() && #[trigger] events[i] is PointerMoved) ==> pointer.after_events(
            events,
        ).last_move_time == pointer.time,
        !(exists|i: int| 0 <= i < events.len() && #[trigger] events[i] is PointerMoved) ==> pointer.after_events(
            events,
        ).last_move_time == pointer.last_move_time,
    decreases events.len(),
{
    if events.len() > 0 {
        let rest = events.drop_last();
        let n = events.len() - 1;
        lemma_last_move(pointer, rest);
        super::frames::lemma_events_keep_time_and_options(pointer, rest);
        if exists|i: int| 0 <= i < rest.len() && #[trigger] rest[i] is PointerMoved {
            let i = choose|i: int| 0 <= i < rest.len() && #[trigger] rest[i] is PointerMoved;
            assert(events[i] is PointerMoved);
        }
        if events[n] is PointerMoved {
            assert(events[n] is PointerMoved);
        }
        if exists|i: int| 0 <= i < events.len() && #[trigger] events[i] is PointerMoved {
            let i = choose|i: int| 0 <= i < events.len() && #[trigger] events[i] is PointerMoved;
            assert(i < n ==> rest[i] is PointerMoved);
        }
    }
}

// ----------------------------------------------------------------------------
// What the pointer did

/// How many of the events are moves or buttons.
pub open spec fn deeds(events: Seq<Event>) -> nat
    decreases events.len(),
{
    if events.len() == 0 {
        0
    } else if events.last() is PointerMoved || events.last() is PointerButton {
        deeds(events.drop_last()) + 1
    } else {
        deeds(events.drop_last())
    }
}

/// What the pointer did in a frame are the moves and the buttons of the frame, one for one and in
/// order. A click is where the button is released, with the modifiers of the release.
pub proof fn the_pointer_does_what_events_say(
    pointer: PointerModel,
    time: Nanos,
    events: Seq<Event>,
    options: InputOptions,
    i: int,
)
    requires
        0 <= i < events.len(),
    ensures
        ({
            let did = pointer.after_pass(time, events, options).pointer_events;
            let k = deeds(events.take(i)) as int;
            &&& did.len() == deeds(events)
            &&& events[i] matches Event::PointerMoved(pos) ==> k < did.len() && did[k] == PointerEvent::Moved(pos)
            &&& events[i] matches Event::PointerButton { pos, button, pressed: true, .. } ==> k < did.len() && did[k] == (
            PointerEvent::Pressed { position: pos, button })
            &&& events[i] matches Event::PointerButton { pos, button, pressed: false, modifiers } ==> k < did.len()
                && did[k] == (PointerEvent::Released {
                click: pointer.frame_started(time, options).after_events(events.take(i)).click_on_release(
                    pos,
                    button,
                    modifiers,
                ),
                button,
            }) && (did[k]->click matches Some(click) ==> click.pos == pos && click.modifiers == modifiers)
        }),
{
    lemma_deeds(pointer.frame_started(time, options), events, i);
}

proof fn lemma_deeds_len(pointer: PointerModel, events: Seq<Event>)
    ensures
        pointer.after_events(events).pointer_events.len() == pointer.pointer_events.len() + deeds(events),
    decreases events.len(),
{
    if events.len() > 0 {
        lemma_deeds_len(pointer, events.drop_last());
    }
}

proof fn lemma_deeds(pointer: PointerModel, events: Seq<Event>, i: int)
    requires
        0 <= i < events.len(),
        pointer.pointer_events.len() == 0,
    ensures
        ({
            let did = pointer.after_events(events).pointer_events;
            let k = deeds(events.take(i)) as int;
            &&& did.len() == deeds(events)
            &&& events[i] is PointerMoved || events[i] is PointerButton ==> k < did.len() && did[k]
                == pointer.after_events(events.take(i)).after_event(events[i]).pointer_events.last()
        }),
    decreases events.len(),
{
    let n = events.len() - 1;
    let rest = events.drop_last();
    lemma_deeds_len(pointer, events);
    lemma_deeds_len(pointer, rest);
    assert(events.take(n) =~= rest);
    if i < n {
        assert(rest.take(i) =~= events.take(i));
        assert(rest[i] == events[i]);
        lemma_deeds(pointer, rest, i);
        let before = pointer.after_events(rest).pointer_events;
        let did = pointer.after_events(events).pointer_events;
        let k = deeds(events.take(i)) as int;
        assert(k < before.len() ==> did[k] == before[k]);
    }
}

/// There is a click if and only if some release is one, of whatever button.
pub proof fn a_click_is_of_some_button(pointer: PointerModel)
    ensures
        pointer.any_click() <==> exists|i: int|
            0 <= i < pointer.pointer_events.len() && (#[trigger] pointer.pointer_events[i] matches PointerEvent::Released {
                click: Some(_),
                ..
            }),
{
}

/// What the pointer did is told apart by what it was, by the button and by the number of clicks.
pub proof fn deeds_are_told_apart(did: PointerEvent, wanted: PointerButton, count: u32)
    ensures
        did matches PointerEvent::Moved(_) ==> !did.presses(wanted) && !did.releases(wanted) && !did.clicks(wanted)
            && !did.clicks_times(wanted, count) && !did.is_press() && !did.is_release() && !did.is_click(),
        did matches PointerEvent::Pressed { button, .. } ==> {
            &&& did.presses(wanted) == (button == wanted)
            &&& !did.releases(wanted) && !did.clicks(wanted) && !did.clicks_times(wanted, count)
            &&& did.is_press() && !did.is_release() && !did.is_click()
        },
        did matches PointerEvent::Released { click, button } ==> {
            &&& did.releases(wanted) == (button == wanted)
            &&& did.clicks(wanted) == (button == wanted && click is Some)
            &&& did.clicks_times(wanted, count) == (button == wanted && (click matches Some(c) && c.count == count))
            &&& !did.presses(wanted)
            &&& !did.is_press() && did.is_release() && did.is_click() == (click is Some)
        },
{
}

// ----------------------------------------------------------------------------
// Buttons that are held

/// A button that is pressed while it is up is held from there and then. Pressed again it goes on
/// being held from where and when it went down. Released it is held no more. In each case the other
/// buttons go on being held from where and when they went down.
pub proof fn buttons_are_held_from_their_press(
    pointer: PointerModel,
    pos: Pos2,
    button: PointerButton,
    modifiers: Modifiers,
    other: PointerButton,
)
    requires
        pointer.wf(),
        other != button,
    ensures
        ({
            let pressed = pointer.after_event(Event::PointerButton { pos, button, pressed: true, modifiers });
            let released = pointer.after_event(Event::PointerButton { pos, button, pressed: false, modifiers });
            let moved = pointer.after_event(Event::PointerMoved(pos));
            &&& pointer.hold(button) is None ==> pressed.hold(button) == Some(
                Hold {
                    origin: pos,
                    start: pointer.time,
                    has_moved_too_much_for_a_click: false,
                    was_long_press: false,
                },
            )
            &&& pointer.hold(button) is Some ==> is_carried(pointer, pointer.hold(button), pressed.hold(button), pos)
            &&& released.hold(button) is None
            &&& is_carried(pointer, pointer.hold(other), pressed.hold(other), pos)
            &&& is_carried(pointer, pointer.hold(other), released.hold(other), pos)
            &&& is_carried(pointer, pointer.hold(button), moved.hold(button), pos)
        }),
{
    super::events::buttons_have_places_of_their_own(button, other);
}

/// Whether a hold is the same after the pointer came to a position, but that this may be too far
/// from where the button went down.
pub open spec fn is_carried(pointer: PointerModel, before: Option<Hold>, after: Option<Hold>, pos: Pos2) -> bool {
    match (before, after) {
        (Some(b), Some(a)) => {
            let dx = b.origin.x.raw - pos.x.raw;
            let dy = b.origin.y.raw - pos.y.raw;
            let limit = pointer.options.max_click_dist.raw as int;
            &&& a.origin == b.origin
            &&& a.start == b.start
            &&& a.was_long_press == b.was_long_press
            &&& 0 <= limit < i64::MAX ==> (a.has_moved_too_much_for_a_click <==> b.has_moved_too_much_for_a_click || dx
                * dx + dy * dy > limit * limit)
        },
        (None, None) => true,
        _ => false,
    }
}

/// The pointer counts as moved too much for a click once it is farther from the latest press than
/// allowed, by a move or by a release. A press starts this anew.
pub proof fn moving_far_from_the_press_counts(
    pointer: PointerModel,
    origin: Pos2,
    pos: Pos2,
    button: PointerButton,
    modifiers: Modifiers,
)
    requires
        pointer.press_origin == Some(origin),
        0 <= pointer.options.max_click_dist.raw < i64::MAX,
    ensures
        ({
            let pressed = pointer.after_event(Event::PointerButton { pos, button, pressed: true, modifiers });
            let released = pointer.after_event(Event::PointerButton { pos, button, pressed: false, modifiers });
            let moved = pointer.after_event(Event::PointerMoved(pos));
            let dx = origin.x.raw - pos.x.raw;
            let dy = origin.y.raw - pos.y.raw;
            let limit = pointer.options.max_click_dist.raw as int;
            let far = dx * dx + dy * dy > limit * limit;
            &&& moved.has_moved_too_much_for_a_click <==> pointer.has_moved_too_much_for_a_click || far
            &&& pointer.has_moved_too_much_for_a_click || far ==> released.has_moved_too_much_for_a_click
            &&& !pressed.has_moved_too_much_for_a_click
        }),
{
}

/// A button has been down for too long once that is longer than a click may take, and could be a
/// click until then, unless it has moved too much.
pub proof fn holds_grow_too_long(hold: Hold, time: Nanos, options: InputOptions)
    requires
        hold.start != i64::MIN,
        i64::MIN <= time - hold.start <= i64::MAX,
    ensures
        hold.is_too_long(time, options) <==> time - hold.start > options.max_click_duration,
        hold.could_be_click(time, options) <==> time - hold.start <= options.max_click_duration
            && !hold.has_moved_too_much_for_a_click,
{
}

/// Clicks are counted by how long after the release of the clicks before the button was pressed.
pub proof fn clicks_are_counted_by_their_press(pointer: PointerModel, start: Nanos)
    requires
        0 <= pointer.options.max_double_click_delay <= 4_000_000_000_000_000_000,
        pointer.last_click_time != i64::MIN,
        i64::MIN <= start - pointer.last_click_time <= i64::MAX,
    ensures
        ({
            let delay = pointer.options.max_double_click_delay;
            let since = start - pointer.last_click_time;
            let since_last = start - pointer.last_last_click_time;
            let third = pointer.last_last_click_time != i64::MIN && since_last < 2 * delay;
            &&& third ==> pointer.click_count(start) == 3
            &&& !third && since < delay ==> pointer.click_count(start) == 2
            &&& !third && since >= delay ==> pointer.click_count(start) == 1
        }),
{
}

/// A release that is a click is the last click from then on, and the last click is the one before
/// that. No other event changes when the clicks were.
pub proof fn clicks_are_remembered(pointer: PointerModel, event: Event)
    ensures
        ({
            let after = pointer.after_event(event);
            let clicked = event matches Event::PointerButton { pos, button, pressed: false, modifiers }
                && pointer.click_on_release(pos, button, modifiers) is Some;
            if clicked {
                after.last_click_time == pointer.time && after.last_last_click_time == pointer.last_click_time
            } else {
                after.last_click_time == pointer.last_click_time && after.last_last_click_time
                    == pointer.last_last_click_time
            }
        }),
{
}

/// While a button is down there could be a click if and only if the pointer has not moved too much
/// since the latest press, and some button that is down has neither moved too much nor been down
/// for longer than a click may take. While none is down there could be one only in the frame of a
/// release, if the pointer had not moved too much.
pub proof fn a_click_needs_a_button_that_could_be_one(pointer: PointerModel)
    requires
        pointer.wf(),
        forall|button: PointerButton|
            #[trigger] pointer.hold(button) matches Some(hold) ==> hold.start != i64::MIN && i64::MIN <= pointer.time
                - hold.start <= i64::MAX,
    ensures
        ({
            let limit = pointer.options.max_click_duration;
            let down = exists|button: PointerButton| #[trigger] pointer.hold(button) is Some;
            &&& pointer.any_down() == down
            &&& down ==> (pointer.could_any_button_be_click() <==> !pointer.has_moved_too_much_for_a_click && exists|
                button: PointerButton,
            |
                #[trigger] pointer.hold(button) matches Some(hold) && !hold.has_moved_too_much_for_a_click
                    && pointer.time - hold.start <= limit)
            &&& !down ==> (pointer.could_any_button_be_click() <==> pointer.went_up
                && !pointer.has_moved_too_much_for_a_click)
        }),
{
    let limit = pointer.options.max_click_duration;
    if pointer.any_down() {
        let i = choose|i: int| 0 <= i < pointer.holds.len() && #[trigger] pointer.holds[i] is Some;
        assert(pointer.hold(button_at(i)) is Some);
    }
    if exists|button: PointerButton| #[trigger] pointer.hold(button) is Some {
        let button = choose|button: PointerButton| #[trigger] pointer.hold(button) is Some;
        assert(pointer.holds[button.index() as int] is Some);
    }
    if pointer.any_down() && pointer.could_any_button_be_click() {
        let i = choose|i: int| 0 <= i < pointer.holds.len() && #[trigger] pointer.could_be_click(i);
        assert(pointer.hold(button_at(i)) is Some);
    }
    if exists|button: PointerButton|
        #[trigger] pointer.hold(button) matches Some(hold) && !hold.has_moved_too_much_for_a_click && pointer.time
            - hold.start <= limit {
        let button = choose|button: PointerButton|
            #[trigger] pointer.hold(button) matches Some(hold) && !hold.has_moved_too_much_for_a_click && pointer.time
                - hold.start <= limit;
        assert(pointer.could_be_click(button.index() as int));
    }
}

/// The button at a place.
spec fn button_at(i: int) -> PointerButton {
    if i == 0 {
        PointerButton::Primary
    } else if i == 1 {
        PointerButton::Secondary
    } else if i == 2 {
        PointerButton::Middle
    } else if i == 3 {
        PointerButton::Extra1
    } else {
        PointerButton::Extra2
    }
}

/// A drag starts in the frame in which there is one and there was none before.
pub proof fn drags_start_once(pointer: PointerModel, time: Nanos, events: Seq<Event>, options: InputOptions)
    ensures
        ({
            let after = pointer.after_pass(time, events, options);
            after.started_decidedly_dragging <==> after.is_decidedly_dragging() && !pointer.is_decidedly_dragging()
        }),
{
    super::lemma_dragging_reads(
        pointer.after_pass(time, events, options),
        pointer.frame_started(time, options).after_events(events),
    );
}

/// A long press is seen if and only if a drag starts while the primary button is held, neither it nor
/// the pointer since the latest press has moved too much, the press is longer ago than a click may
/// take, and it has not been seen before.
pub proof fn long_presses_are_held_still(pointer: PointerModel, start: Nanos, hold: Hold)
    requires
        pointer.press_start_time == Some(start),
        pointer.hold(PointerButton::Primary) == Some(hold),
        start != i64::MIN,
        i64::MIN <= pointer.time - start <= i64::MAX,
    ensures
        pointer.is_long_press() <==> pointer.started_decidedly_dragging && !pointer.has_moved_too_much_for_a_click
            && !hold.has_moved_too_much_for_a_click && !hold.was_long_press && pointer.time - start
            > pointer.options.max_click_duration,
{
}

/// While no button is down there is a drag only in the frame of a release, if the pointer had moved
/// too much, and no button was pressed or clicked in it.
pub proof fn a_released_drag_is_a_far_one(pointer: PointerModel)
    requires
        !pointer.any_down(),
    ensures
        pointer.is_decidedly_dragging() <==> pointer.went_up && pointer.has_moved_too_much_for_a_click
            && !pointer.went_down && !pointer.any_click(),
{
}

/// After a release the pointer counts as moved too much if it did before, if the release is too far
/// from the latest press, or if no other button is down and the button that is released had moved
/// too far; and not otherwise.
pub proof fn a_release_may_count_as_a_far_move(
    pointer: PointerModel,
    pos: Pos2,
    button: PointerButton,
    modifiers: Modifiers,
)
    requires
        pointer.wf(),
        0 <= pointer.options.max_click_dist.raw < i64::MAX,
    ensures
        ({
            let released = pointer.after_event(Event::PointerButton { pos, button, pressed: false, modifiers });
            let limit = pointer.options.max_click_dist.raw as int;
            let far = pointer.press_origin matches Some(origin) && {
                let dx = origin.x.raw - pos.x.raw;
                let dy = origin.y.raw - pos.y.raw;
                dx * dx + dy * dy > limit * limit
            };
            let alone = forall|other: PointerButton|
                other != button ==> #[trigger] pointer.hold(other) is None;
            let hold_is_far = pointer.hold(button) matches Some(hold) && {
                let dx = hold.origin.x.raw - pos.x.raw;
                let dy = hold.origin.y.raw - pos.y.raw;
                hold.has_moved_too_much_for_a_click || dx * dx + dy * dy > limit * limit
            };
            released.has_moved_too_much_for_a_click <==> pointer.has_moved_too_much_for_a_click || far || (alone
                && hold_is_far)
        }),
{
    if pointer.others_down(button) {
        let i = choose|i: int|
            0 <= i < pointer.holds.len() && i != button.index() && #[trigger] pointer.holds[i] is Some;
        assert(pointer.hold(button_at(i)) is Some);
        assert(button_at(i) != button);
    } else {
        assert forall|other: PointerButton| other != button implies #[trigger] pointer.hold(other) is None by {
            super::events::buttons_have_places_of_their_own(button, other);
            assert(pointer.holds[other.index() as int] is None);
        }
    }
}

/// A frame without events keeps the press, the clicks and the buttons that are held, and only notes
/// that a long press has been seen. Nothing is pressed or released in it.
pub proof fn frames_without_events_keep_the_buttons(
    pointer: PointerModel,
    time: Nanos,
    options: InputOptions,
    button: PointerButton,
)
    requires
        pointer.wf(),
    ensures
        ({
            let after = pointer.after_pass(time, Seq::empty(), options);
            let noted = pointer.is_long_press() && button == PointerButton::Primary;
            &&& after.time == time
            &&& after.options == options
            &&& after.latest_pos == pointer.latest_pos
            &&& after.press_origin == pointer.press_origin
            &&& after.press_start_time == pointer.press_start_time
            &&& after.has_moved_too_much_for_a_click == pointer.has_moved_too_much_for_a_click
            &&& after.last_click_time == pointer.last_click_time
            &&& after.last_last_click_time == pointer.last_last_click_time
            &&& after.pointer_events.len() == 0
            &&& !after.went_down && !after.went_up
            &&& match (pointer.hold(button), after.hold(button)) {
                (Some(b), Some(a)) => a == (Hold { was_long_press: b.was_long_press || noted, ..b }),
                (None, None) => true,
                _ => false,
            }
        }),
{
    super::events::buttons_have_places_of_their_own(button, PointerButton::Primary);
}

// ----------------------------------------------------------------------------
// Movement

/// In a frame with a press only the position at its end is remembered, and in one without also those
/// of before; but for those that are too old or too many. Once the pointer has left, none is.
pub proof fn positions_are_remembered_from_the_press(
    pointer: PointerModel,
    time: Nanos,
    events: Seq<Event>,
    options: InputOptions,
)
    ensures
        ({
            let after = pointer.after_pass(time, events, options);
            let gone = exists|i: int| 0 <= i < events.len() && #[trigger] events[i] is PointerGone;
            let pressed = exists|i: int|
                0 <= i < events.len() && (#[trigger] events[i] matches Event::PointerButton { pressed: true, .. });
            &&& gone ==> after.pos_history.len() == 0
            &&& !gone && pressed && after.latest_pos is Some ==> after.pos_history == seq![
                (time, after.latest_pos->0),
            ]
            &&& !gone && !pressed && after.latest_pos is Some ==> after.pos_history == flushed(
                flushed(pointer.pos_history.push((time, after.latest_pos->0)), time),
                time,
            )
            &&& !gone && !pressed && after.latest_pos is None ==> after.pos_history == flushed(
                pointer.pos_history,
                time,
            )
        }),
{
    let started = pointer.frame_started(time, options);
    let stepped = started.after_events(events);
    lemma_history(started, events);
    super::frames::lemma_events_keep_time_and_options(started, events);
    assert(PointerModel::goes(events) <==> exists|i: int|
        0 <= i < events.len() && #[trigger] events[i] is PointerGone);
    if stepped.pos_history.len() == 0 && stepped.latest_pos is Some {
        let one = Seq::<(Nanos, Pos2)>::empty().push((time, stepped.latest_pos->0));
        assert(stepped.pos_history =~= Seq::empty());
        assert(one =~= seq![(time, stepped.latest_pos->0)]);
        old_positions_are_forgotten(one, time);
    }
}

proof fn lemma_history(pointer: PointerModel, events: Seq<Event>)
    ensures
        (exists|i: int|
            0 <= i < events.len() && (#[trigger] events[i] matches Event::PointerButton { pressed: true, .. }))
            ==> pointer.after_events(events).pos_history.len() == 0,
        !(exists|i: int|
            0 <= i < events.len() && (#[trigger] events[i] matches Event::PointerButton { pressed: true, .. }))
            ==> pointer.after_events(events).pos_history == pointer.pos_history,
    decreases events.len(),
{
    if events.len() > 0 {
        let rest = events.drop_last();
        let n = events.len() - 1;
        lemma_history(pointer, rest);
        if exists|i: int|
            0 <= i < rest.len() && (#[trigger] rest[i] matches Event::PointerButton { pressed: true, .. }) {
            let i = choose|i: int|
                0 <= i < rest.len() && (#[trigger] rest[i] matches Event::PointerButton { pressed: true, .. });
            assert(events[i] is PointerButton);
        }
        if exists|i: int|
            0 <= i < events.len() && (#[trigger] events[i] matches Event::PointerButton { pressed: true, .. }) {
            let i = choose|i: int|
                0 <= i < events.len() && (#[trigger] events[i] matches Event::PointerButton { pressed: true, .. });
            assert(i < n ==> rest[i] is PointerButton);
        }
        assert(events[n] == events.last());
    }
}

/// The velocity after a frame is that which the remembered positions show, if there are three at
/// least and they last for more than a hundredth of a second, and else zero. The direction is that of
/// the velocity which they show, however few or short, and zero if they show none.
pub proof fn movement_is_that_of_the_remembered_positions(
    pointer: PointerModel,
    time: Nanos,
    events: Seq<Event>,
    options: InputOptions,
)
    requires
        forall|i: int| 0 <= i < events.len() ==> !(#[trigger] events[i] is PointerGone),
    ensures
        ({
            let after = pointer.after_pass(time, events, options);
            let positions = after.pos_history;
            let shown = velocity(positions);
            &&& positions.len() >= 3 && duration(positions) > 10_000_000 ==> shown == Some(after.velocity)
            &&& positions.len() < 3 || duration(positions) <= 10_000_000 ==> after.velocity.x.raw == 0
                && after.velocity.y.raw == 0
            &&& shown matches Some(v) ==> after.direction == v.normalized()
            &&& shown is None ==> after.direction.x.raw == 0 && after.direction.y.raw == 0
        }),
{
}

/// A pointer that leaves has a last velocity, from the positions that were remembered until then,
/// and no direction.
pub proof fn a_pointer_that_leaves_has_a_last_velocity(
    pointer: PointerModel,
    time: Nanos,
    events: Seq<Event>,
    options: InputOptions,
)
    requires
        events.len() > 0,
        events.last() is PointerGone,
        forall|i: int| 0 <= i < events.len() - 1 ==> !(#[trigger] events[i] is PointerButton),
    ensures
        ({
            let after = pointer.after_pass(time, events, options);
            let positions = flushed(pointer.pos_history, time);
            &&& positions.len() >= 3 && duration(positions) > 10_000_000 ==> velocity(positions) == Some(
                after.velocity,
            )
            &&& positions.len() < 3 || duration(positions) <= 10_000_000 ==> after.velocity.x.raw == 0
                && after.velocity.y.raw == 0
            &&& after.direction.x.raw == 0 && after.direction.y.raw == 0
        }),
{
    let started = pointer.frame_started(time, options);
    lemma_history(started, events);
    super::frames::lemma_events_keep_time_and_options(started, events);
    assert(events[events.len() - 1] is PointerGone);
    assert(PointerModel::goes(events));
}

/// The pointer is still if and only if its velocity is zero on both axes.
pub proof fn a_still_pointer_has_no_velocity(pointer: PointerModel)
    ensures
        pointer.is_still() <==> pointer.velocity.x.raw == 0 && pointer.velocity.y.raw == 0,
{
}

} // verus!
