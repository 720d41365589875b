//! What is shown of the input, and what the form of the options offers.

use crate::data::TouchDeviceId;
use crate::fixed::Fixed;
use crate::input::InputState;
use crate::options::InputOptions;
use crate::pointer::PointerModel;
use crate::time::Nanos;
use crate::ui::{Item, Line, Setting, Value};
use vstd::prelude::*;

verus! {

/// The form has a row for each option, with its present value and its range, and none twice.
pub proof fn the_form_shows_each_option_as_it_is(options: InputOptions, i: int)
    requires
        0 <= i < options.rows().len(),
    ensures
        ({
            let rows = options.rows();
            &&& rows.len() == 8
            &&& rows[i].setting == rows[i].setting.current(options)
            &&& rows[i].range == rows[i].setting.range()
            &&& rows[0].setting is LineScrollSpeed
            &&& rows[1].setting is ScrollZoomSpeed
            &&& rows[2].setting is MaxClickDist
            &&& rows[3].setting is MaxClickDuration
            &&& rows[4].setting is MaxDoubleClickDelay
            &&& rows[5].setting is ZoomModifier
            &&& rows[6].setting is HorizontalScrollModifier
            &&& rows[7].setting is VerticalScrollModifier
        }),
{
}

/// Speeds and distances can be what is not negative, a click can take a tenth of a second or more, a
/// double click a hundredth, and modifiers can be what they will.
pub proof fn ranges_have_their_least_values(n: Fixed, span: Nanos, modifiers: crate::modifiers::Modifiers)
    ensures
        Setting::LineScrollSpeed(n).range().holds(Setting::LineScrollSpeed(n)) <==> n.raw >= 0,
        Setting::ScrollZoomSpeed(n).range().holds(Setting::ScrollZoomSpeed(n)) <==> n.raw >= 0,
        Setting::MaxClickDist(n).range().holds(Setting::MaxClickDist(n)) <==> n.raw >= 0,
        Setting::MaxClickDuration(span).range().holds(Setting::MaxClickDuration(span)) <==> span >= 100_000_000,
        Setting::MaxDoubleClickDelay(span).range().holds(Setting::MaxDoubleClickDelay(span)) <==> span >= 10_000_000,
        Setting::ZoomModifier(modifiers).range().holds(Setting::ZoomModifier(modifiers)),
        Setting::HorizontalScrollModifier(modifiers).range().holds(Setting::HorizontalScrollModifier(modifiers)),
        Setting::VerticalScrollModifier(modifiers).range().holds(Setting::VerticalScrollModifier(modifiers)),
{
}

/// An option that is entered below its least value gets that.
pub proof fn too_little_becomes_the_least(options: InputOptions, n: Fixed, span: Nanos)
    ensures
        n.raw < 0 ==> options.with(Setting::LineScrollSpeed(n)).line_scroll_speed.raw == 0,
        n.raw < 0 ==> options.with(Setting::ScrollZoomSpeed(n)).scroll_zoom_speed.raw == 0,
        n.raw < 0 ==> options.with(Setting::MaxClickDist(n)).max_click_dist.raw == 0,
        span < 100_000_000 ==> options.with(Setting::MaxClickDuration(span)).max_click_duration == 100_000_000,
        span < 10_000_000 ==> options.with(Setting::MaxDoubleClickDelay(span)).max_double_click_delay == 10_000_000,
{
}

/// Whether two settings are of the same option.
pub open spec fn same_option(a: Setting, b: Setting) -> bool {
    ||| a is LineScrollSpeed && b is LineScrollSpeed
    ||| a is ScrollZoomSpeed && b is ScrollZoomSpeed
    ||| a is MaxClickDist && b is MaxClickDist
    ||| a is MaxClickDuration && b is MaxClickDuration
    ||| a is MaxDoubleClickDelay && b is MaxDoubleClickDelay
    ||| a is ZoomModifier && b is ZoomModifier
    ||| a is HorizontalScrollModifier && b is HorizontalScrollModifier
    ||| a is VerticalScrollModifier && b is VerticalScrollModifier
}

/// Changing an option leaves the others as they are.
pub proof fn other_options_stay(options: InputOptions, setting: Setting, other: Setting)
    requires
        !same_option(setting, other),
    ensures
        other.current(options.with(setting)) == other.current(options),
{
}

/// A line with nothing to show when the pointer rests on it.
pub open spec fn line(label: &'static str, value: Value<'static>, unit: &'static str) -> Line<'static> {
    Line { label, value, unit, hover: "" }
}

/// The inspector shows each value of the pointer under its own name.
pub proof fn the_pointer_is_shown_under_its_names(pointer: PointerModel, lines: Seq<Line<'static>>)
    requires
        pointer.is_shown(lines),
    ensures
        lines.len() == 15,
        lines[0] == line("latest_pos: ", Value::Pos(pointer.latest_pos), ""),
        lines[1] == line("interact_pos: ", Value::Pos(pointer.interact_pos), ""),
        lines[2] == line("delta: ", Value::Vector(pointer.delta), ""),
        lines[3] == line("motion: ", Value::Motion(pointer.motion), ""),
        lines[4] == line("velocity: ", Value::Velocity(pointer.velocity), " points/sec"),
        lines[5] == line("direction: ", Value::Vector(pointer.direction), ""),
        lines[6].label == "down: ",
        lines[6].value matches Value::Buttons(down) && down@.len() == pointer.holds.len() && forall|i: int|
            0 <= i < down@.len() ==> #[trigger] down@[i] == pointer.holds[i] is Some,
        lines[7] == line("press_origin: ", Value::Pos(pointer.press_origin), ""),
        lines[8] == line("press_start_time: ", Value::MaybeTime(pointer.press_start_time), " s"),
        lines[9] == line(
            "has_moved_too_much_for_a_click: ",
            Value::Flag(pointer.has_moved_too_much_for_a_click),
            "",
        ),
        lines[10] == line("started_decidedly_dragging: ", Value::Flag(pointer.started_decidedly_dragging), ""),
        lines[11] == line("last_click_time: ", Value::Time(pointer.last_click_time), ""),
        lines[12] == line("last_last_click_time: ", Value::Time(pointer.last_last_click_time), ""),
        lines[13] == line("last_move_time: ", Value::Time(pointer.last_move_time), ""),
        lines[14].label == "pointer_events: ",
        lines[14].value matches Value::PointerEvents(did) && did@ == pointer.pointer_events,
{
    assert forall|i: int| 0 <= i < 6 implies #[trigger] lines[i] == lines.take(6)[i] by {}
    assert forall|i: int| 7 <= i < 14 implies #[trigger] lines[i] == lines.subrange(7, 14)[i - 7] by {}
}

/// The inspector shows each value of the input under its own name, in this order, after the sections
/// on the raw input, the pointer and each touch device. What is pending is shown for debugging only.
pub proof fn the_input_is_shown_under_its_names(
    state: InputState,
    debugging: bool,
    ids: Seq<u64>,
    items: Seq<Item<'static>>,
)
    requires
        state.is_inspector(debugging, ids, items),
        state.internal@.last_scroll_time != i64::MIN,
        i64::MIN <= state.time - state.internal@.last_scroll_time <= i64::MAX,
    ensures
        ({
            let n = 3 + ids.len() as int;
            let m = if debugging {
                n + 3
            } else {
                n + 1
            };
            let since = (state.time - state.internal@.last_scroll_time) as i64;
            &&& items.len() == m + 15
            &&& items[0] is Monospace
            &&& items[1] matches Item::RawInput { raw, .. } && raw == state.raw
            &&& items[2] matches Item::Pointer { pointer, .. } && pointer == state.pointer
            &&& forall|i: int|
                0 <= i < ids.len() ==> (#[trigger] items[3 + i] matches Item::Touch { device_id, touch, .. }
                    && device_id == (TouchDeviceId { value: ids[i] }) && touch@
                    == state.internal@.touch_states[ids[i]])
            &&& items[n] == Item::Line(line("Time since last scroll: ", Value::Seconds(since), " s"))
            &&& debugging ==> items[n + 1] == Item::Line(
                line(
                    "unprocessed_scroll_delta: ",
                    Value::Vector(state.internal@.unprocessed_scroll_delta),
                    " points",
                ),
            ) && items[n + 2] == Item::Line(
                line(
                    "unprocessed_scroll_delta_for_zoom: ",
                    Value::Number(state.internal@.unprocessed_scroll_delta_for_zoom),
                    " points",
                ),
            )
            &&& items[m] == Item::Line(line("raw_scroll_delta: ", Value::Vector(state.raw_scroll_delta), " points"))
            &&& items[m + 1] == Item::Line(
                line("smooth_scroll_delta: ", Value::Vector(state.smooth_scroll_delta), " points"),
            )
            &&& items[m + 2] == Item::Line(
                line("zoom_factor_delta: ", Value::Factor(state.internal@.zoom_factor_delta), "x"),
            )
            &&& items[m + 3] == Item::Line(line("screen_rect: ", Value::Area(state.internal@.screen_rect), " points"))
            &&& items[m + 4] == Item::Line(line("safe_area: ", Value::Insets(state.internal@.safe_area), " points"))
            &&& items[m + 5] == Item::Line(
                line("", Value::Ratio(state.pixels_per_point), " physical pixels for each logical point"),
            )
            &&& items[m + 6] == Item::Line(
                line("max texture size (on each side): ", Value::Count(state.max_texture_side), ""),
            )
            &&& items[m + 7] == Item::Line(line("time: ", Value::Clock(state.time), " s"))
            &&& items[m + 8] == Item::Line(line("time since previous frame: ", Value::Millis(state.unstable_dt), " ms"))
            &&& items[m + 9] == Item::Line(line("predicted_dt: ", Value::Millis(state.predicted_dt), " ms"))
            &&& items[m + 10] == Item::Line(line("stable_dt:    ", Value::Millis(state.stable_dt), " ms"))
            &&& items[m + 11] == Item::Line(line("focused:   ", Value::Flag(state.focused), ""))
            &&& items[m + 12] == Item::Line(line("modifiers: ", Value::Modifiers(state.modifiers), ""))
            &&& items[m + 13] matches Item::Line(l) && l.label == "keys_down: " && (l.value matches Value::Keys(keys)
                && keys == state.keys_down)
            &&& items[m + 14] matches Item::Tall { line: l, .. } && l.label == "events: " && (
            l.value matches Value::Events(events) && events == state.events)
        }),
{
    let n = 3 + ids.len() as int;
    let head = items.take(3);
    let rest = items.skip(n);
    assert(state.inspector_head().len() == 3);
    assert(items[0] == head[0] && items[1] == head[1] && items[2] == head[2]);
    assert forall|i: int| 0 <= i < rest.len() implies #[trigger] items[n + i] == rest[i] by {}
    assert(rest == state.inspector_scroll(debugging) + state.inspector_tail());
    assert forall|i: int| 0 <= i < ids.len() implies (#[trigger] items[3 + i] matches Item::Touch {
        device_id,
        touch,
        ..
    } && device_id == (TouchDeviceId { value: ids[i] }) && touch@ == state.internal@.touch_states[ids[i]]) by {
        assert(state.is_inspector_device(items[state.inspector_head().len() + i], ids[i]));
    }
    let m: int = if debugging {
        3
    } else {
        1
    };
    assert(rest[0] == state.inspector_scroll(debugging)[0]);
    assert(debugging ==> rest[1] == state.inspector_scroll(debugging)[1] && rest[2] == state.inspector_scroll(
        debugging,
    )[2]);
    assert forall|i: int| 0 <= i < 15 implies #[trigger] items[n + m + i] == state.inspector_tail()[i] by {
        assert(items[n + (m + i)] == rest[m + i]);
    }
    assert(items[n + m + 0] == state.inspector_tail()[0]);
    assert(items[n + 0] == rest[0]);
    assert(items[n + 1] == rest[1]);
    assert(items[n + 2] == rest[2]);
}

} // verus!
