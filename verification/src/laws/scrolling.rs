//! What the wheel does to what is scrolled and zoomed.

use crate::data::{Event, MouseWheelUnit};
use crate::fixed::Fixed;
use crate::geometry::{Rect, Vec2};
use crate::modifiers::Modifiers;
use crate::options::InputOptions;
use crate::scroll::Scroll;
use vstd::prelude::*;

verus! {

/// A turn of the wheel with no modifier down.
pub open spec fn plain_turn(unit: MouseWheelUnit, delta: Vec2) -> Event {
    Event::MouseWheel {
        unit,
        delta,
        modifiers: Modifiers { alt: false, ctrl: false, shift: false, mac_cmd: false, command: false },
    }
}

/// Whether both axes lie strictly within the range of numbers.
pub open spec fn is_finite(v: Vec2) -> bool {
    i64::MIN < v.x.raw < i64::MAX && i64::MIN < v.y.raw < i64::MAX
}

/// Whether the quotient of an integer and the number of units in one is in range.
pub open spec fn is_in_range(num: int) -> bool {
    i64::MIN * 4_294_967_296 < num < i64::MAX * 4_294_967_296
}

/// A turn in points scrolls by as many points, one in lines by as many times the line speed, and
/// one in pages by as many times the height of the screen, on each axis.
pub proof fn wheel_scrolls_by_points_lines_and_pages(
    before: Scroll,
    unit: MouseWheelUnit,
    delta: Vec2,
    options: InputOptions,
    screen: Rect,
)
    requires
        is_finite(before.after_event(plain_turn(unit, delta), options, screen).raw_scroll_delta),
        unit is Line ==> is_in_range(delta.x.raw * options.line_scroll_speed.raw) && is_in_range(
            delta.y.raw * options.line_scroll_speed.raw,
        ),
        unit is Page ==> i64::MIN <= screen.max.y.raw - screen.min.y.raw <= i64::MAX && is_in_range(
            delta.x.raw * (screen.max.y.raw - screen.min.y.raw),
        ) && is_in_range(delta.y.raw * (screen.max.y.raw - screen.min.y.raw)),
    ensures
        ({
            let after = before.after_event(plain_turn(unit, delta), options, screen);
            let x = after.raw_scroll_delta.x.raw - before.raw_scroll_delta.x.raw;
            let y = after.raw_scroll_delta.y.raw - before.raw_scroll_delta.y.raw;
            let one = 4_294_967_296int;
            match unit {
                MouseWheelUnit::Point => x == delta.x.raw && y == delta.y.raw,
                MouseWheelUnit::Line => {
                    &&& super::numbers::rounds(x, delta.x.raw * options.line_scroll_speed.raw, one)
                    &&& super::numbers::rounds(y, delta.y.raw * options.line_scroll_speed.raw, one)
                },
                MouseWheelUnit::Page => {
                    &&& super::numbers::rounds(x, delta.x.raw * (screen.max.y.raw - screen.min.y.raw), one)
                    &&& super::numbers::rounds(y, delta.y.raw * (screen.max.y.raw - screen.min.y.raw), one)
                },
            }
        }),
{
    super::numbers::scaling_is_on_both_axes(delta, options.line_scroll_speed);
    super::numbers::scaling_is_on_both_axes(delta, screen.height());
}

/// A turn in pages depends on how high the screen is, and not on how wide it is or where it lies
/// horizontally. A turn in other units does not depend on the screen at all.
pub proof fn only_the_height_of_the_screen_matters(
    before: Scroll,
    event: Event,
    options: InputOptions,
    screen: Rect,
    other: Rect,
)
    requires
        (screen.min.y == other.min.y && screen.max.y == other.max.y) || !(event matches Event::MouseWheel {
            unit: MouseWheelUnit::Page,
            ..
        }),
    ensures
        before.after_event(event, options, screen) == before.after_event(event, options, other),
{
}

/// A modifier for one axis puts what the turn would scroll on both of them on that one. Without
/// either, or with both, the turn scrolls as without modifiers.
pub proof fn modifiers_move_the_turn_to_one_axis(
    before: Scroll,
    unit: MouseWheelUnit,
    delta: Vec2,
    modifiers: Modifiers,
    options: InputOptions,
    screen: Rect,
)
    requires
        is_finite(before.after_event(plain_turn(unit, delta), options, screen).raw_scroll_delta),
        is_finite(
            before.after_event(Event::MouseWheel { unit, delta, modifiers }, options, screen).raw_scroll_delta,
        ),
    ensures
        ({
            let plain = before.after_event(plain_turn(unit, delta), options, screen).raw_scroll_delta;
            let after = before.after_event(Event::MouseWheel { unit, delta, modifiers }, options, screen).raw_scroll_delta;
            let start = before.raw_scroll_delta;
            let both = plain.x.raw - start.x.raw + plain.y.raw - start.y.raw;
            let horizontal = modifiers.matches_any(options.horizontal_scroll_modifier);
            let vertical = modifiers.matches_any(options.vertical_scroll_modifier);
            &&& horizontal && !vertical && i64::MIN <= both <= i64::MAX ==> after.x.raw - start.x.raw == both && after.y
                == start.y
            &&& !horizontal && vertical && i64::MIN <= both <= i64::MAX ==> after.y.raw - start.y.raw == both && after.x
                == start.x
            &&& horizontal == vertical ==> after == plain
        }),
{
}

/// A turn goes to what is scrolled at once if it is in points and shorter than eight of them, and
/// else to what is pending; or, with the modifier for zooming, the sum of its axes to what is
/// zoomed at once or what is pending of that. All of the turn goes there, and nothing else changes.
pub proof fn small_turns_act_at_once(
    before: Scroll,
    unit: MouseWheelUnit,
    delta: Vec2,
    modifiers: Modifiers,
    options: InputOptions,
    screen: Rect,
)
    requires
        is_finite(
            before.after_event(Event::MouseWheel { unit, delta, modifiers }, options, screen).raw_scroll_delta,
        ),
    ensures
        ({
            let after = before.after_event(Event::MouseWheel { unit, delta, modifiers }, options, screen);
            let x = after.raw_scroll_delta.x.raw - before.raw_scroll_delta.x.raw;
            let y = after.raw_scroll_delta.y.raw - before.raw_scroll_delta.y.raw;
            let small = unit is Point && x * x + y * y < 34_359_738_368 * 34_359_738_368;
            let zoom = modifiers.matches_any(options.zoom_modifier);
            &&& after.zoom_factor_delta == before.zoom_factor_delta
            &&& if !zoom && small {
                grows(before.smooth_scroll_delta, after.smooth_scroll_delta, x, y)
            } else {
                after.smooth_scroll_delta == before.smooth_scroll_delta
            }
            &&& if !zoom && !small {
                grows(before.unprocessed_scroll_delta, after.unprocessed_scroll_delta, x, y)
            } else {
                after.unprocessed_scroll_delta == before.unprocessed_scroll_delta
            }
            &&& if zoom && small {
                adds(before.smooth_scroll_delta_for_zoom, after.smooth_scroll_delta_for_zoom, x + y)
            } else {
                after.smooth_scroll_delta_for_zoom == before.smooth_scroll_delta_for_zoom
            }
            &&& if zoom && !small {
                adds(before.unprocessed_scroll_delta_for_zoom, after.unprocessed_scroll_delta_for_zoom, x + y)
            } else {
                after.unprocessed_scroll_delta_for_zoom == before.unprocessed_scroll_delta_for_zoom
            }
        }),
{
}

/// Whether a number grows by an amount, unless that or the sum is out of range.
pub open spec fn adds(before: Fixed, after: Fixed, amount: int) -> bool {
    i64::MIN <= amount <= i64::MAX && i64::MIN <= before.raw + amount <= i64::MAX ==> after.raw == before.raw + amount
}

/// Whether a vector grows by an amount on each axis, unless the sum is out of range.
pub open spec fn grows(before: Vec2, after: Vec2, x: int, y: int) -> bool {
    adds(before.x, after.x, x) && adds(before.y, after.y, y)
}

/// A pinch multiplies the zoom by its factor, and does nothing else. What is neither a pinch nor a
/// turn of the wheel does nothing.
pub proof fn pinches_multiply_the_zoom(
    before: Scroll,
    factor: Fixed,
    event: Event,
    options: InputOptions,
    screen: Rect,
)
    ensures
        ({
            let after = before.after_event(Event::Zoom(factor), options, screen);
            &&& super::numbers::rounds_in_range(
                after.zoom_factor_delta.raw,
                before.zoom_factor_delta.raw * factor.raw,
                4_294_967_296,
            )
            &&& after == (Scroll { zoom_factor_delta: after.zoom_factor_delta, ..before })
        }),
        !(event is Zoom) && !(event is MouseWheel) ==> before.after_event(event, options, screen) == before,
{
    super::numbers::products_are_rounded(before.zoom_factor_delta, factor);
}

/// Events act one after the other: what two lists do is what the second does after the first.
pub proof fn events_scroll_one_after_the_other(
    before: Scroll,
    first: Seq<Event>,
    second: Seq<Event>,
    options: InputOptions,
    screen: Rect,
)
    ensures
        before.after_events(first + second, options, screen) == before.after_events(
            first,
            options,
            screen,
        ).after_events(second, options, screen),
        before.after_events(Seq::empty(), options, screen) == before,
    decreases second.len(),
{
    if second.len() == 0 {
        assert(first + second =~= first);
    } else {
        assert((first + second).drop_last() =~= first + second.drop_last());
        events_scroll_one_after_the_other(before, first, second.drop_last(), options, screen);
    }
}

/// A single event acts as it does in a list of its own.
pub proof fn single_events_scroll_alone(before: Scroll, event: Event, options: InputOptions, screen: Rect)
    ensures
        before.after_events(seq![event], options, screen) == before.after_event(event, options, screen),
{
    assert(seq![event].drop_last() =~= Seq::empty());
    events_scroll_one_after_the_other(before, Seq::empty(), Seq::empty(), options, screen);
}

/// Whether what was pending is left as smoothing leaves it: nothing of what is less than a point,
/// and else all but the given fraction.
pub open spec fn is_left(before: Fixed, after: Fixed, t: Fixed) -> bool {
    if -4_294_967_296 < before.raw < 4_294_967_296 {
        after.raw == 0
    } else {
        super::numbers::rounds(before.raw - after.raw, t.raw * before.raw, 4_294_967_296)
    }
}

/// Smoothing carries out all of what is less than a point, and of what is more the given fraction,
/// on each axis and for the zoom alike.
pub proof fn smoothing_carries_out_a_fraction(scroll: Scroll, t: Fixed)
    requires
        0 <= t.raw <= 4_294_967_296,
    ensures
        ({
            let after = scroll.smoothed(t);
            &&& is_left(scroll.unprocessed_scroll_delta.x, after.unprocessed_scroll_delta.x, t)
            &&& is_left(scroll.unprocessed_scroll_delta.y, after.unprocessed_scroll_delta.y, t)
            &&& is_left(scroll.unprocessed_scroll_delta_for_zoom, after.unprocessed_scroll_delta_for_zoom, t)
            &&& after.raw_scroll_delta == scroll.raw_scroll_delta
            &&& after.zoom_factor_delta == scroll.zoom_factor_delta
        }),
{
    lemma_part(scroll.unprocessed_scroll_delta.x, t);
    lemma_part(scroll.unprocessed_scroll_delta.y, t);
    lemma_part(scroll.unprocessed_scroll_delta_for_zoom, t);
}

/// What smoothing carries out of a number.
proof fn lemma_part(pending: Fixed, t: Fixed)
    requires
        0 <= t.raw <= 4_294_967_296,
    ensures
        is_left(pending, pending.minus(crate::scroll::applied(pending, t)), t),
{
    let one = 4_294_967_296int;
    let n = t.raw * pending.raw;
    super::lemma_fraction(t, pending);
    super::numbers::lemma_quotient(n, one);
    super::numbers::products_are_rounded(t, pending);
    let r = crate::fixed::quotient(n, one);
    assert(i64::MIN <= r <= i64::MAX) by {
        let (a, b) = (t.raw as int, pending.raw as int);
        if r > i64::MAX {
            assert(false) by (nonlinear_arith)
                requires
                    one == 4_294_967_296,
                    n == a * b,
                    0 <= a <= one,
                    b <= 0x7fff_ffff_ffff_ffff,
                    r > 0x7fff_ffff_ffff_ffff,
                    r * one <= n,
            ;
        }
        if r < i64::MIN {
            assert(false) by (nonlinear_arith)
                requires
                    one == 4_294_967_296,
                    n == a * b,
                    0 <= a <= one,
                    b >= -0x8000_0000_0000_0000,
                    r < -0x8000_0000_0000_0000,
                    n <= r * one,
            ;
        }
    }
}

/// A frame starts with nothing scrolled and nothing zoomed, and with what is pending from before.
pub proof fn frames_start_with_what_is_pending(pending: Vec2, pending_zoom: Fixed)
    ensures
        ({
            let start = Scroll::start(pending, pending_zoom);
            &&& start.unprocessed_scroll_delta == pending
            &&& start.unprocessed_scroll_delta_for_zoom == pending_zoom
            &&& start.raw_scroll_delta.x.raw == 0 && start.raw_scroll_delta.y.raw == 0
            &&& start.smooth_scroll_delta.x.raw == 0 && start.smooth_scroll_delta.y.raw == 0
            &&& start.smooth_scroll_delta_for_zoom.raw == 0
            &&& start.zoom_factor_delta.raw == 4_294_967_296
        }),
{
}

} // verus!
