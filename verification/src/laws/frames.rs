//! What a frame makes of its input.

use super::{is_frame, Frame};
use crate::data::{Event, Key, MouseWheelUnit, TouchDeviceId};
use crate::fixed::Fixed;
use crate::geometry::Vec2;
use crate::input::InputState;
use crate::scroll::Scroll;
use crate::time::Nanos;
use crate::touch::{ActiveTouch, MultiTouchInfo};
use vstd::prelude::*;

verus! {

/// The time of a frame is what the backend says, and else as much later as was predicted. The time
/// since the last frame is the difference; it is trusted if a repaint was asked for, and else the
/// prediction is.
pub proof fn frames_take_time(before: InputState, frame: Frame)
    requires
        is_frame(before, frame),
    ensures
        ({
            let after = frame.after;
            &&& frame.new.time matches Some(time) ==> after.time == time
            &&& frame.new.time is None && i64::MIN <= before.time + frame.new.predicted_dt <= i64::MAX ==> after.time
                == before.time + frame.new.predicted_dt
            &&& before.time != i64::MIN && i64::MIN <= after.time - before.time <= i64::MAX ==> after.unstable_dt
                == after.time - before.time
            &&& after.predicted_dt == frame.new.predicted_dt
            &&& after.stable_dt == if frame.requested_immediate_repaint {
                after.unstable_dt
            } else {
                after.predicted_dt
            }
        }),
{
}

/// A frame takes over what the backend says, and keeps what it does not say.
pub proof fn frames_keep_what_is_not_said(before: InputState, frame: Frame)
    requires
        is_frame(before, frame),
    ensures
        ({
            let after = frame.after;
            let new = frame.new;
            &&& after.focused == new.focused
            &&& after.modifiers == new.modifiers
            &&& after.pixels_per_point == frame.pixels_per_point
            &&& after.internal@.options == frame.options
            &&& after.pointer@.options == frame.options
            &&& new.max_texture_side matches Some(side) ==> after.max_texture_side == side
            &&& new.max_texture_side is None ==> after.max_texture_side == before.max_texture_side
            &&& new.screen_rect matches Some(rect) ==> after.internal@.screen_rect == rect
            &&& new.screen_rect is None ==> after.internal@.screen_rect == before.internal@.screen_rect
            &&& new.safe_area matches Some(area) ==> after.internal@.safe_area == area
            &&& new.safe_area is None ==> after.internal@.safe_area == before.internal@.safe_area
            &&& after.raw.viewport_id == new.viewport_id
            &&& after.raw.viewports == new.viewports
            &&& after.raw.time == new.time
            &&& after.raw.screen_rect == new.screen_rect
            &&& after.raw.safe_area == new.safe_area
            &&& after.raw.max_texture_side == new.max_texture_side
            &&& after.raw.predicted_dt == new.predicted_dt
            &&& after.raw.modifiers == new.modifiers
            &&& after.raw.focused == new.focused
        }),
{
    lemma_events_keep_time_and_options(
        before.pointer@.frame_started(frame.after.time, frame.options),
        frame.new.events@,
    );
}

/// Events change neither the time nor the options of the pointer.
pub(crate) proof fn lemma_events_keep_time_and_options(pointer: crate::pointer::PointerModel, events: Seq<Event>)
    ensures
        pointer.after_events(events).time == pointer.time,
        pointer.after_events(events).options == pointer.options,
    decreases events.len(),
{
    if events.len() > 0 {
        lemma_events_keep_time_and_options(pointer, events.drop_last());
    }
}

/// A frame keeps the events, in their order, and only says anew which presses of keys are
/// repetitions: those of keys that are down when they come.
pub proof fn frames_keep_the_events(before: InputState, frame: Frame, i: int)
    requires
        is_frame(before, frame),
        0 <= i < frame.new.events@.len(),
    ensures
        frame.after.events@.len() == frame.new.events@.len(),
        frame.after.raw.events@ == frame.after.events@,
        !(frame.new.events@[i] is Key) ==> frame.after.events@[i] == frame.new.events@[i],
        frame.new.events@[i] matches Event::Key { key, physical_key, pressed, repeat, modifiers } ==> {
            frame.after.events@[i] matches Event::Key { key: k, physical_key: pk, pressed: p, repeat: r, modifiers: m }
                && k == key && pk == physical_key && p == pressed && m == modifiers && (!pressed ==> r == repeat)
        },
{
}

/// A press of a key is marked as a repetition if the key was down before the frame and no event
/// before it lets the key up, and is not if it was up before the frame and no event before it
/// presses the key.
pub proof fn repetitions_are_of_keys_that_are_down(before: InputState, frame: Frame, i: int, key: Key)
    requires
        is_frame(before, frame),
        0 <= i < frame.new.events@.len(),
        frame.new.events@[i] matches Event::Key { key: k, pressed: true, .. } && k == key,
        forall|j: int|
            0 <= j < i ==> match #[trigger] frame.new.events@[j] {
                Event::Key { key: k, .. } => k != key,
                Event::WindowFocused(focused) => focused,
                _ => true,
            },
    ensures
        frame.after.events@[i] matches Event::Key { repeat, .. } && repeat == before.keys_down@.contains(key),
{
    let prefix = frame.new.events@.take(i);
    assert forall|j: int| 0 <= j < prefix.len() implies !super::decides_key(#[trigger] prefix[j], key) by {
        assert(prefix[j] == frame.new.events@[j]);
    }
    super::undecided_key_stays(before.keys_down@, prefix, key);
}

/// After a frame a key is down if the last event about it in the frame is a press, and up if it is
/// a release or the loss of the focus.
pub proof fn keys_are_down_after_their_press(before: InputState, frame: Frame, key: Key, last: int)
    requires
        is_frame(before, frame),
        0 <= last < frame.new.events@.len(),
        forall|j: int|
            last < j < frame.new.events@.len() ==> match #[trigger] frame.new.events@[j] {
                Event::Key { key: k, .. } => k != key,
                Event::WindowFocused(focused) => focused,
                _ => true,
            },
    ensures
        frame.new.events@[last] matches Event::Key { key: k, pressed, .. } && k == key
            ==> frame.after.keys_down@.contains(key) == frame.new.events@[last]->Key_pressed,
        frame.new.events@[last] == Event::WindowFocused(false) ==> !frame.after.keys_down@.contains(key),
{
    let events = frame.new.events@;
    if super::decides_key(events[last], key) {
        assert forall|j: int| last < j < events.len() implies !super::decides_key(#[trigger] events[j], key) by {}
        super::last_event_decides_key(before.keys_down@, events, key, last);
    }
}

/// The pointer takes in the events of the frame, at its time.
pub proof fn pointers_take_in_the_frame(before: InputState, frame: Frame)
    requires
        is_frame(before, frame),
    ensures
        frame.after.pointer@ == before.pointer@.after_pass(frame.after.time, frame.new.events@, frame.options),
        frame.after.pointer@.time == frame.after.time,
{
    lemma_events_keep_time_and_options(
        before.pointer@.frame_started(frame.after.time, frame.options),
        frame.new.events@,
    );
}

/// A frame without a turn of the wheel and without a pinch scrolls only what is pending: all of
/// what is less than a point, and of what is more the fraction that is the smoothing factor. The
/// zoom is that of the scroll alone, by the exponential of what is carried out for the zoom, times
/// the zoom speed.
pub proof fn quiet_frames_scroll_what_is_pending(before: InputState, frame: Frame)
    requires
        is_frame(before, frame),
        0 <= frame.t.raw <= 4_294_967_296,
        forall|i: int|
            0 <= i < frame.new.events@.len() ==> !(#[trigger] frame.new.events@[i] is MouseWheel)
                && !(frame.new.events@[i] is Zoom),
    ensures
        ({
            let after = frame.after;
            let pending = before.internal@.unprocessed_scroll_delta;
            let left = after.internal@.unprocessed_scroll_delta;
            let pending_zoom = before.internal@.unprocessed_scroll_delta_for_zoom;
            let left_zoom = after.internal@.unprocessed_scroll_delta_for_zoom;
            &&& after.raw_scroll_delta.x.raw == 0 && after.raw_scroll_delta.y.raw == 0
            &&& super::scrolling::is_left(pending.x, left.x, frame.t)
            &&& super::scrolling::is_left(pending.y, left.y, frame.t)
            &&& super::scrolling::is_left(pending_zoom, left_zoom, frame.t)
            &&& after.smooth_scroll_delta.x.raw == pending.x.raw - left.x.raw
            &&& after.smooth_scroll_delta.y.raw == pending.y.raw - left.y.raw
            &&& super::numbers::rounds_in_range(
                before.zoom_exponent(frame.new, frame.options, frame.t).raw,
                frame.options.scroll_zoom_speed.raw * (pending_zoom.raw - left_zoom.raw),
                4_294_967_296,
            )
            &&& after.internal@.zoom_factor_delta == frame.factor
        }),
{
    let start = Scroll::start(
        before.internal@.unprocessed_scroll_delta,
        before.internal@.unprocessed_scroll_delta_for_zoom,
    );
    let screen = before.new_screen_rect(frame.new);
    lemma_quiet_events(start, frame.new.events@, frame.options, screen);
    super::scrolling::smoothing_carries_out_a_fraction(start, frame.t);
    super::smoothing_loses_nothing(start, frame.t);
    let z = start.smoothed(frame.t).smooth_scroll_delta_for_zoom;
    super::numbers::products_are_rounded(frame.options.scroll_zoom_speed, z);
    super::numbers::products_are_rounded(frame.factor, Fixed::from_int(1));
}

proof fn lemma_quiet_events(
    start: Scroll,
    events: Seq<Event>,
    options: crate::options::InputOptions,
    screen: crate::geometry::Rect,
)
    requires
        forall|i: int|
            0 <= i < events.len() ==> !(#[trigger] events[i] is MouseWheel) && !(events[i] is Zoom),
    ensures
        start.after_events(events, options, screen) == start,
    decreases events.len(),
{
    if events.len() > 0 {
        let rest = events.drop_last();
        assert(!(events[events.len() - 1] is MouseWheel));
        assert forall|i: int| 0 <= i < rest.len() implies !(#[trigger] rest[i] is MouseWheel) && !(rest[i] is Zoom) by {
            assert(rest[i] == events[i]);
        }
        lemma_quiet_events(start, rest, options, screen);
    }
}

/// A frame with a single turn of the wheel to zoom, and nothing pending of that, zooms by what of
/// the turn is carried out: its exponent is the sum of the axes, but for what is left pending, times
/// the zoom speed.
pub proof fn a_turn_zooms_by_its_axes(before: InputState, frame: Frame)
    requires
        is_frame(before, frame),
        frame.new.events@.len() == 1,
        frame.new.events@[0] matches Event::MouseWheel { modifiers, .. } && modifiers.matches_any(
            frame.options.zoom_modifier,
        ),
        before.internal@.unprocessed_scroll_delta_for_zoom.raw == 0,
        super::scrolling::is_finite(frame.after.raw_scroll_delta),
        i64::MIN <= frame.after.raw_scroll_delta.x.raw + frame.after.raw_scroll_delta.y.raw <= i64::MAX,
        0 <= frame.t.raw <= 4_294_967_296,
    ensures
        ({
            let turn = frame.after.raw_scroll_delta.x.raw + frame.after.raw_scroll_delta.y.raw;
            let left = frame.after.internal@.unprocessed_scroll_delta_for_zoom.raw;
            &&& super::numbers::rounds_in_range(
                before.zoom_exponent(frame.new, frame.options, frame.t).raw,
                frame.options.scroll_zoom_speed.raw * (turn - left),
                4_294_967_296,
            )
            &&& left == 0 || super::scrolling::is_left(
                Fixed { raw: turn as i64 },
                frame.after.internal@.unprocessed_scroll_delta_for_zoom,
                frame.t,
            )
        }),
{
    let start = Scroll::start(
        before.internal@.unprocessed_scroll_delta,
        before.internal@.unprocessed_scroll_delta_for_zoom,
    );
    let events = frame.new.events@;
    let screen = before.new_screen_rect(frame.new);
    assert(events =~= seq![events[0]]);
    super::scrolling::single_events_scroll_alone(start, events[0], frame.options, screen);
    match events[0] {
        Event::MouseWheel { unit, delta, modifiers } => {
            super::scrolling::small_turns_act_at_once(start, unit, delta, modifiers, frame.options, screen);
        },
        _ => {},
    }
    let turned = start.after_event(events[0], frame.options, screen);
    super::scrolling::smoothing_carries_out_a_fraction(turned, frame.t);
    lemma_zoom_adds_up(turned, frame.t);
    super::numbers::products_are_rounded(
        frame.options.scroll_zoom_speed,
        turned.smoothed(frame.t).smooth_scroll_delta_for_zoom,
    );
}

proof fn lemma_zoom_adds_up(scroll: Scroll, t: Fixed)
    requires
        0 <= t.raw <= 4_294_967_296,
        i64::MIN <= scroll.smooth_scroll_delta_for_zoom.raw + scroll.unprocessed_scroll_delta_for_zoom.raw
            <= i64::MAX,
    ensures
        scroll.smoothed(t).smooth_scroll_delta_for_zoom.raw + scroll.smoothed(t).unprocessed_scroll_delta_for_zoom.raw
            == scroll.smooth_scroll_delta_for_zoom.raw + scroll.unprocessed_scroll_delta_for_zoom.raw,
{
    super::lemma_fraction(t, scroll.unprocessed_scroll_delta_for_zoom);
}

/// In a frame with a single turn of the wheel and no modifier, the turn scrolls by the options of
/// the frame and by the height that the screen has in it.
pub proof fn a_turn_goes_by_the_screen_of_the_frame(
    before: InputState,
    frame: Frame,
    unit: MouseWheelUnit,
    delta: Vec2,
)
    requires
        is_frame(before, frame),
        frame.new.events@ == seq![super::scrolling::plain_turn(unit, delta)],
        super::scrolling::is_finite(frame.after.raw_scroll_delta),
        unit is Line ==> super::scrolling::is_in_range(delta.x.raw * frame.options.line_scroll_speed.raw)
            && super::scrolling::is_in_range(delta.y.raw * frame.options.line_scroll_speed.raw),
        unit is Page ==> ({
            let screen = frame.after.internal@.screen_rect;
            let height = screen.max.y.raw - screen.min.y.raw;
            &&& i64::MIN <= height <= i64::MAX
            &&& super::scrolling::is_in_range(delta.x.raw * height)
            &&& super::scrolling::is_in_range(delta.y.raw * height)
        }),
    ensures
        ({
            let scrolled = frame.after.raw_scroll_delta;
            let screen = frame.after.internal@.screen_rect;
            let height = screen.max.y.raw - screen.min.y.raw;
            let speed = frame.options.line_scroll_speed.raw;
            let one = 4_294_967_296int;
            match unit {
                MouseWheelUnit::Point => scrolled == delta,
                MouseWheelUnit::Line => {
                    &&& super::numbers::rounds(scrolled.x.raw as int, delta.x.raw * speed, one)
                    &&& super::numbers::rounds(scrolled.y.raw as int, delta.y.raw * speed, one)
                },
                MouseWheelUnit::Page => {
                    &&& super::numbers::rounds(scrolled.x.raw as int, delta.x.raw * height, one)
                    &&& super::numbers::rounds(scrolled.y.raw as int, delta.y.raw * height, one)
                },
            }
        }),
{
    let start = Scroll::start(
        before.internal@.unprocessed_scroll_delta,
        before.internal@.unprocessed_scroll_delta_for_zoom,
    );
    let screen = frame.after.internal@.screen_rect;
    super::scrolling::single_events_scroll_alone(
        start,
        super::scrolling::plain_turn(unit, delta),
        frame.options,
        screen,
    );
    super::scrolling::wheel_scrolls_by_points_lines_and_pages(start, unit, delta, frame.options, screen);
}

/// The factors of the pinches among the events, in order.
pub open spec fn pinches(events: Seq<Event>) -> Seq<Fixed>
    decreases events.len(),
{
    if events.len() == 0 {
        Seq::empty()
    } else {
        match events.last() {
            Event::Zoom(factor) => pinches(events.drop_last()).push(factor),
            _ => pinches(events.drop_last()),
        }
    }
}

/// The product of factors.
pub open spec fn product(factors: Seq<Fixed>) -> Fixed
    decreases factors.len(),
{
    if factors.len() == 0 {
        Fixed { raw: 4_294_967_296 }
    } else {
        product(factors.drop_last()).times(factors.last())
    }
}

/// The zoom of a frame is the product of the factors of all its pinches and of the factor that
/// scrolling zooms by.
pub proof fn zoom_is_the_product_of_all_factors(before: InputState, frame: Frame)
    requires
        is_frame(before, frame),
    ensures
        frame.after.internal@.zoom_factor_delta == product(pinches(frame.new.events@)).times(frame.factor),
{
    lemma_pinches(
        Scroll::start(
            before.internal@.unprocessed_scroll_delta,
            before.internal@.unprocessed_scroll_delta_for_zoom,
        ),
        frame.new.events@,
        frame.options,
        before.new_screen_rect(frame.new),
    );
}

proof fn lemma_pinches(
    start: Scroll,
    events: Seq<Event>,
    options: crate::options::InputOptions,
    screen: crate::geometry::Rect,
)
    requires
        start.zoom_factor_delta.raw == 4_294_967_296,
    ensures
        start.after_events(events, options, screen).zoom_factor_delta == product(pinches(events)),
    decreases events.len(),
{
    if events.len() > 0 {
        lemma_pinches(start, events.drop_last(), options, screen);
        match events.last() {
            Event::Zoom(factor) => {
                assert(pinches(events).drop_last() =~= pinches(events.drop_last()));
            },
            _ => {},
        }
    }
}

/// If scrolling does not zoom, a frame with a single pinch zooms by the factor of the pinch, whatever
/// else happens in it, and a frame without a pinch does not zoom. If scrolling zooms, the zoom is
/// multiplied by its factor.
pub proof fn a_pinch_zooms_by_its_factor(before: InputState, frame: Frame, i: int)
    requires
        is_frame(before, frame),
        forall|j: int| 0 <= j < frame.new.events@.len() && j != i ==> !(#[trigger] frame.new.events@[j] is Zoom),
    ensures
        ({
            let events = frame.new.events@;
            let zoom = frame.after.internal@.zoom_factor_delta;
            &&& 0 <= i < events.len() && frame.factor.raw == 4_294_967_296 ==> (events[i] matches Event::Zoom(factor)
                ==> zoom == factor)
            &&& 0 <= i < events.len() ==> (events[i] matches Event::Zoom(factor) ==> super::numbers::rounds_in_range(
                zoom.raw,
                factor.raw * frame.factor.raw,
                4_294_967_296,
            ))
            &&& !(0 <= i < events.len() && events[i] is Zoom) ==> zoom == frame.factor
        }),
{
    let events = frame.new.events@;
    zoom_is_the_product_of_all_factors(before, frame);
    lemma_single_pinch(events, i);
    super::numbers::products_are_rounded(frame.factor, Fixed::from_int(1));
    if 0 <= i < events.len() {
        match events[i] {
            Event::Zoom(factor) => {
                assert(product(Seq::empty()) == Fixed::from_int(1));
                assert(seq![factor].drop_last() =~= Seq::empty());
                assert(product(seq![factor]) == Fixed::from_int(1).times(factor));
                super::numbers::products_are_rounded(factor, Fixed::from_int(1));
                super::numbers::products_are_rounded(Fixed::from_int(1), factor);
                super::numbers::products_are_rounded(factor, frame.factor);
            },
            _ => {},
        }
    }
    assert(product(Seq::empty()) == Fixed::from_int(1));
    super::numbers::products_are_rounded(Fixed::from_int(1), frame.factor);
}

proof fn lemma_single_pinch(events: Seq<Event>, i: int)
    requires
        forall|j: int| 0 <= j < events.len() && j != i ==> !(#[trigger] events[j] is Zoom),
    ensures
        pinches(events) == if 0 <= i < events.len() {
            match events[i] {
                Event::Zoom(factor) => seq![factor],
                _ => Seq::<Fixed>::empty(),
            }
        } else {
            Seq::<Fixed>::empty()
        },
    decreases events.len(),
{
    if events.len() > 0 {
        let rest = events.drop_last();
        let n = events.len() - 1;
        assert forall|j: int| 0 <= j < rest.len() && j != i implies !(#[trigger] rest[j] is Zoom) by {
            assert(rest[j] == events[j]);
        }
        lemma_single_pinch(rest, i);
        if n != i {
            assert(!(events[n] is Zoom));
        } else {
            match events[n] {
                Event::Zoom(factor) => {
                    assert(Seq::<Fixed>::empty().push(factor) =~= seq![factor]);
                },
                _ => {},
            }
        }
    }
}

/// The user has scrolled just now in a frame that scrolls, and as long ago as before in one that
/// does not.
pub proof fn scrolling_is_remembered(before: InputState, frame: Frame)
    requires
        is_frame(before, frame),
    ensures
        ({
            let after = frame.after;
            let still = after.raw_scroll_delta.x.raw == 0 && after.raw_scroll_delta.y.raw == 0
                && after.smooth_scroll_delta.x.raw == 0 && after.smooth_scroll_delta.y.raw == 0;
            &&& !still ==> after.internal@.last_scroll_time == after.time
            &&& still ==> after.internal@.last_scroll_time == before.internal@.last_scroll_time
        }),
{
}

/// Scrolling is smoothed for the span of the frame, but for a tenth of a second at most.
pub proof fn smoothing_is_for_a_tenth_of_a_second_at_most(span: Nanos)
    ensures
        crate::input::smoothing_span(span) <= 100_000_000,
        crate::input::smoothing_span(span) <= span,
        crate::input::smoothing_span(span) == span || crate::input::smoothing_span(span) == 100_000_000,
{
}

/// The zoom that is shown is that of a multi-touch gesture, if there is one, on each axis as well.
/// Else it is that of the frame; on an axis that the modifiers leave out there is none.
pub proof fn gestures_zoom_before_the_wheel(state: InputState)
    ensures
        ({
            let zoom = state.internal@.zoom_factor_delta;
            let options = state.internal@.options;
            let horizontal = state.modifiers.matches_any(options.horizontal_scroll_modifier);
            let vertical = state.modifiers.matches_any(options.vertical_scroll_modifier);
            match crate::devices::multi_touch(state.internal@.touch_states) {
                Some(gesture) => state.shown_zoom() == gesture.zoom_delta && state.shown_zoom_2d()
                    == gesture.zoom_delta_2d,
                None => {
                    &&& state.shown_zoom() == zoom
                    &&& vertical || !horizontal ==> state.shown_zoom_2d().y == zoom
                    &&& horizontal || !vertical ==> state.shown_zoom_2d().x == zoom
                    &&& horizontal && !vertical ==> state.shown_zoom_2d().y.raw == 4_294_967_296
                    &&& vertical && !horizontal ==> state.shown_zoom_2d().x.raw == 4_294_967_296
                },
            }
        }),
{
}

/// A repaint is due at once while more than a fifth of a point is pending to be scrolled on either
/// axis, in either direction, or to be zoomed.
pub proof fn pending_scrolls_want_repaint(state: InputState)
    requires
        ({
            let pending = state.internal@.unprocessed_scroll_delta;
            let zoom = state.internal@.unprocessed_scroll_delta_for_zoom;
            ||| pending.x.raw > 858_993_472 || pending.x.raw < -858_993_472
            ||| pending.y.raw > 858_993_472 || pending.y.raw < -858_993_472
            ||| zoom.raw > 858_993_472 || zoom.raw < -858_993_472
        }),
    ensures
        state.repaint_wait() == Some(0i64),
{
}

/// A repaint is due at once when there are events, when the pointer did anything, and when it moved.
pub proof fn whatever_happens_wants_repaint(state: InputState)
    requires
        ({
            ||| state.events@.len() > 0
            ||| state.pointer@.pointer_events.len() > 0
            ||| state.pointer@.delta.x.raw != 0
            ||| state.pointer@.delta.y.raw != 0
        }),
    ensures
        state.repaint_wait() == Some(0i64),
{
}

/// When nothing happens and no more than a fifth of a point is pending, a repaint is due only for a
/// press that may become long: if a finger is down, the press is no drag and has not lasted as long
/// as a click may take, and that is not for ever. It is due when the press will have lasted so long.
pub proof fn nothing_else_wants_repaint(state: InputState)
    requires
        state.events@.len() == 0,
        state.pointer@.pointer_events.len() == 0,
        state.pointer@.delta.x.raw == 0,
        state.pointer@.delta.y.raw == 0,
        -858_993_472 <= state.internal@.unprocessed_scroll_delta.x.raw <= 858_993_472,
        -858_993_472 <= state.internal@.unprocessed_scroll_delta.y.raw <= 858_993_472,
        -858_993_472 <= state.internal@.unprocessed_scroll_delta_for_zoom.raw <= 858_993_472,
    ensures
        ({
            let limit = state.internal@.options.max_click_duration;
            let touched = crate::devices::any_touches(state.internal@.touch_states);
            &&& !touched ==> state.repaint_wait() is None
            &&& state.pointer@.is_decidedly_dragging() ==> state.repaint_wait() is None
            &&& limit == i64::MAX ==> state.repaint_wait() is None
            &&& state.pointer@.press_start_time is None ==> state.repaint_wait() is None
            &&& state.pointer@.press_start_time matches Some(start) ==> {
                let held = state.time - start;
                &&& start != i64::MIN && 0 <= held && held >= limit ==> state.repaint_wait() is None
                &&& touched && !state.pointer@.is_decidedly_dragging() && limit < i64::MAX && start != i64::MIN
                    && 0 <= held < limit ==> state.repaint_wait() == Some((limit - held) as i64)
            }
        }),
{
    assert(state.pointer@.delta == Vec2::zero());
}

/// In a frame each touch device that has been seen, or from which a touch comes, follows its fingers
/// through the events, and shows the first gesture on it if two fingers are down at the end. No other
/// device is there.
pub proof fn devices_take_in_the_frame(before: InputState, frame: Frame, id: u64)
    requires
        is_frame(before, frame),
    ensures
        ({
            let earlier = before.internal@.touch_states;
            let after = frame.after.internal@.touch_states;
            let events = frame.new.events@;
            let comes = exists|i: int|
                0 <= i < events.len() && (#[trigger] events[i] matches Event::Touch { device_id, .. }
                    && device_id.value == id);
            let device = if earlier.contains_key(id) {
                earlier[id].device_id
            } else {
                TouchDeviceId { value: id }
            };
            let fingers = if earlier.contains_key(id) {
                earlier[id].active_touches
            } else {
                Map::<u64, ActiveTouch>::empty()
            };
            &&& after.contains_key(id) <==> earlier.contains_key(id) || comes
            &&& after.contains_key(id) ==> {
                &&& after[id].device_id == device
                &&& after[id].active_touches == crate::touch::touches_after_events(device, fingers, events)
                &&& after[id].active_touches.len() >= 2 ==> after[id].info() == crate::touch::gesture_of(
                    frame.gestures,
                    device,
                )
                &&& after[id].active_touches.len() < 2 ==> after[id].info() is None
            }
        }),
{
    let earlier = before.internal@.touch_states;
    let events = frame.new.events@;
    let comes = exists|i: int|
        0 <= i < events.len() && (#[trigger] events[i] matches Event::Touch { device_id, .. } && device_id.value == id);
    if earlier.contains_key(id) || comes {
        super::touching::each_device_takes_in_the_events(earlier, events, frame.gestures, id);
    } else {
        super::touching::no_device_comes_from_nowhere(earlier, events, frame.gestures, id);
    }
}

/// There is no gesture if no device has one.
pub proof fn no_device_with_a_gesture_means_none(devices: Map<u64, crate::touch::TouchModel>)
    requires
        forall|id: u64| #[trigger] devices.contains_key(id) ==> devices[id].info() is None,
    ensures
        crate::devices::multi_touch(devices) is None,
{
    crate::devices::lemma_first_gesture(devices, None);
}

/// What is shown of a gesture is that of the device with the smallest number that has one.
pub proof fn the_first_device_with_a_gesture_counts(
    devices: Map<u64, crate::touch::TouchModel>,
    id: u64,
    info: MultiTouchInfo,
)
    requires
        devices.contains_key(id),
        devices[id].info() == Some(info),
        forall|other: u64| other < id && #[trigger] devices.contains_key(other) ==> devices[other].info() is None,
    ensures
        crate::devices::multi_touch(devices) == Some(info),
{
    assert(crate::devices::first_gesture(devices, Some(info)));
    crate::devices::lemma_first_gesture(devices, Some(info));
}

} // verus!
