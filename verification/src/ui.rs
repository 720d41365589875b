//! What an inspector shows, and what it lets the user change.
//!
//! The values come as they are. Whoever draws them chooses how to write them.

use crate::data::{Event, RawInput, TouchDeviceId};
use crate::fixed::Fixed;
use crate::geometry::{Pos2, Rect, SafeArea, Vec2};
use crate::keys::KeySet;
use crate::modifiers::Modifiers;
use crate::options::InputOptions;
use crate::pointer::{PointerEvent, PointerState};
use crate::time::{Nanos, INFINITY};
use crate::touch::TouchState;
use vstd::prelude::*;

verus! {

/// A value that is shown.
#[derive(Clone, Copy, Debug)]
pub enum Value<'a> {
    Flag(bool),
    Count(usize),
    Number(Fixed),
    /// A number, without decimals if it is whole.
    Ratio(Fixed),
    /// A factor, to two decimals.
    Factor(Fixed),
    Vector(Vec2),
    /// A velocity, to whole points per second.
    Velocity(Vec2),
    Motion(Option<Vec2>),
    Pos(Option<Pos2>),
    Area(Rect),
    Insets(SafeArea),
    Time(Nanos),
    MaybeTime(Option<Nanos>),
    /// A span in seconds, to one decimal.
    Seconds(Nanos),
    /// A point in time in seconds, to three decimals.
    Clock(Nanos),
    /// A span in milliseconds, to one decimal.
    Millis(Nanos),
    Modifiers(Modifiers),
    Buttons([bool; 5]),
    Keys(&'a KeySet),
    Events(&'a Vec<Event>),
    PointerEvents(&'a Vec<PointerEvent>),
}

/// A line of text: a label, a value and a unit, and what is shown when the pointer rests on it.
#[derive(Clone, Copy, Debug)]
pub struct Line<'a> {
    pub label: &'static str,
    pub value: Value<'a>,
    pub unit: &'static str,
    pub hover: &'static str,
}

impl<'a> Line<'a> {
    pub open spec fn spec_of(label: &'static str, value: Value<'a>, unit: &'static str) -> Line<'a> {
        Line { label, value, unit, hover: "" }
    }

    /// A line with nothing more to show.
    #[verifier::when_used_as_spec(spec_of)]
    pub fn of(label: &'static str, value: Value<'a>, unit: &'static str) -> (r: Line<'a>)
        ensures
            r == Line::<'a>::spec_of(label, value, unit),
    {
        Line { label, value, unit, hover: "" }
    }
}

/// A part of the inspector.
#[derive(Clone, Copy, Debug)]
pub enum Item<'a> {
    /// From here on text is written in a font of fixed width.
    Monospace,
    /// A section that the user can open, on the raw input.
    RawInput { title: &'static str, raw: &'a RawInput },
    /// A section that the user can open, on the pointer.
    Pointer { title: &'static str, pointer: &'a PointerState },
    /// A section that the user can open, on a touch device.
    Touch { title: &'static str, device_id: TouchDeviceId, touch: &'a TouchState },
    /// A line of text.
    Line(Line<'a>),
    /// A line of text that is at least so many points high.
    Tall { line: Line<'a>, min_height: Fixed },
}

/// An option together with a value for it.
#[derive(Clone, Copy, Debug, PartialEq, Eq, Structural)]
pub enum Setting {
    LineScrollSpeed(Fixed),
    ScrollZoomSpeed(Fixed),
    MaxClickDist(Fixed),
    MaxClickDuration(Nanos),
    MaxDoubleClickDelay(Nanos),
    ZoomModifier(Modifiers),
    HorizontalScrollModifier(Modifiers),
    VerticalScrollModifier(Modifiers),
}

/// The shortest time that a click can be allowed to take.
pub const LEAST_CLICK_DURATION: Nanos = 100_000_000;

/// The shortest delay that a double click can be allowed to have.
pub const LEAST_DOUBLE_CLICK_DELAY: Nanos = 10_000_000;

/// The values that an option can be given, ends included.
#[derive(Clone, Copy, Debug, PartialEq, Eq, Structural)]
pub enum Range {
    Numbers { least: Fixed, most: Fixed },
    Spans { least: Nanos, most: Nanos },
    /// All of them.
    Free,
}

impl Range {
    pub open spec fn spec_not_negative() -> Range {
        Range::Numbers { least: Fixed { raw: 0 }, most: Fixed { raw: i64::MAX } }
    }

    /// The numbers from zero to infinity.
    #[verifier::when_used_as_spec(spec_not_negative)]
    pub fn not_negative() -> (r: Range)
        ensures
            r == Range::spec_not_negative(),
    {
        Range::Numbers { least: Fixed { raw: 0 }, most: Fixed { raw: i64::MAX } }
    }

    pub open spec fn spec_at_least(least: Nanos) -> Range {
        Range::Spans { least, most: INFINITY }
    }

    /// The spans from the given one to infinity.
    #[verifier::when_used_as_spec(spec_at_least)]
    pub fn at_least(least: Nanos) -> (r: Range)
        ensures
            r == Range::spec_at_least(least),
    {
        Range::Spans { least, most: INFINITY }
    }

    /// Whether the value of the setting is one of them.
    pub open spec fn holds(self, setting: Setting) -> bool {
        match (self, setting) {
            (
                Range::Numbers { least, most },
                Setting::LineScrollSpeed(n) | Setting::ScrollZoomSpeed(n) | Setting::MaxClickDist(n),
            ) => least.raw <= n.raw <= most.raw,
            (
                Range::Spans { least, most },
                Setting::MaxClickDuration(n) | Setting::MaxDoubleClickDelay(n),
            ) => least <= n <= most,
            (
                Range::Free,
                Setting::ZoomModifier(_) | Setting::HorizontalScrollModifier(_) | Setting::VerticalScrollModifier(_),
            ) => true,
            _ => false,
        }
    }
}

impl Setting {
    /// The values that the option can be given.
    pub open spec fn range(self) -> Range {
        match self {
            Setting::LineScrollSpeed(_) | Setting::ScrollZoomSpeed(_) | Setting::MaxClickDist(_) => Range::not_negative(),
            Setting::MaxClickDuration(_) => Range::at_least(LEAST_CLICK_DURATION),
            Setting::MaxDoubleClickDelay(_) => Range::at_least(LEAST_DOUBLE_CLICK_DELAY),
            Setting::ZoomModifier(_) | Setting::HorizontalScrollModifier(_) | Setting::VerticalScrollModifier(_) => Range::Free,
        }
    }

    /// The same option, with the value that it has in the given options.
    pub open spec fn current(self, options: InputOptions) -> Setting {
        match self {
            Setting::LineScrollSpeed(_) => Setting::LineScrollSpeed(options.line_scroll_speed),
            Setting::ScrollZoomSpeed(_) => Setting::ScrollZoomSpeed(options.scroll_zoom_speed),
            Setting::MaxClickDist(_) => Setting::MaxClickDist(options.max_click_dist),
            Setting::MaxClickDuration(_) => Setting::MaxClickDuration(options.max_click_duration),
            Setting::MaxDoubleClickDelay(_) => Setting::MaxDoubleClickDelay(options.max_double_click_delay),
            Setting::ZoomModifier(_) => Setting::ZoomModifier(options.zoom_modifier),
            Setting::HorizontalScrollModifier(_) => Setting::HorizontalScrollModifier(
                options.horizontal_scroll_modifier,
            ),
            Setting::VerticalScrollModifier(_) => Setting::VerticalScrollModifier(options.vertical_scroll_modifier),
        }
    }
}

/// A row of the form in which the options are changed.
#[derive(Clone, Copy, Debug)]
pub struct SettingRow {
    pub label: &'static str,
    /// The option, with its present value.
    pub setting: Setting,
    /// The values that the option can be given.
    pub range: Range,
    /// By how many thousandths the value changes when it is dragged by a point.
    pub drag_speed: u32,
    pub hover: &'static str,
}

/// The larger of two numbers.
pub open spec fn at_least(value: i64, least: i64) -> i64 {
    if value < least {
        least
    } else {
        value
    }
}

/// Raises a number to a least value.
fn raised(value: i64, least: i64) -> (r: i64)
    ensures
        r == at_least(value, least),
{
    if value < least {
        least
    } else {
        value
    }
}

impl InputOptions {
    /// The rows of the form in which the options are changed.
    pub open spec fn rows(self) -> Seq<SettingRow> {
        seq![
            SettingRow {
                label: "Line scroll speed",
                setting: Setting::LineScrollSpeed(self.line_scroll_speed),
                range: Range::not_negative(),
                drag_speed: 1000,
                hover: "How many lines to scroll with each tick of the mouse wheel",
            },
            SettingRow {
                label: "Scroll zoom speed",
                setting: Setting::ScrollZoomSpeed(self.scroll_zoom_speed),
                range: Range::not_negative(),
                drag_speed: 1,
                hover: "How fast to zoom with ctrl/cmd + scroll",
            },
            SettingRow {
                label: "Max click distance",
                setting: Setting::MaxClickDist(self.max_click_dist),
                range: Range::not_negative(),
                drag_speed: 1000,
                hover: "If the pointer moves more than this, it won't become a click",
            },
            SettingRow {
                label: "Max click duration",
                setting: Setting::MaxClickDuration(self.max_click_duration),
                range: Range::at_least(LEAST_CLICK_DURATION),
                drag_speed: 100,
                hover: "If the pointer is down for longer than this it will no longer register as a click",
            },
            SettingRow {
                label: "Max double click delay",
                setting: Setting::MaxDoubleClickDelay(self.max_double_click_delay),
                range: Range::at_least(LEAST_DOUBLE_CLICK_DELAY),
                drag_speed: 100,
                hover: "Max time interval for double click to count",
            },
            SettingRow {
                label: "zoom_modifier",
                setting: Setting::ZoomModifier(self.zoom_modifier),
                range: Range::Free,
                drag_speed: 0,
                hover: "",
            },
            SettingRow {
                label: "horizontal_scroll_modifier",
                setting: Setting::HorizontalScrollModifier(self.horizontal_scroll_modifier),
                range: Range::Free,
                drag_speed: 0,
                hover: "",
            },
            SettingRow {
                label: "vertical_scroll_modifier",
                setting: Setting::VerticalScrollModifier(self.vertical_scroll_modifier),
                range: Range::Free,
                drag_speed: 0,
                hover: "",
            },
        ]
    }

    /// The form in which the options are changed: a row for each.
    pub fn ui(&self) -> (r: Vec<SettingRow>)
        ensures
            r@ == self.rows(),
    {
        vec![
            SettingRow {
                label: "Line scroll speed",
                setting: Setting::LineScrollSpeed(self.line_scroll_speed),
                range: Range::not_negative(),
                drag_speed: 1000,
                hover: "How many lines to scroll with each tick of the mouse wheel",
            },
            SettingRow {
                label: "Scroll zoom speed",
                setting: Setting::ScrollZoomSpeed(self.scroll_zoom_speed),
                range: Range::not_negative(),
                drag_speed: 1,
                hover: "How fast to zoom with ctrl/cmd + scroll",
            },
            SettingRow {
                label: "Max click distance",
                setting: Setting::MaxClickDist(self.max_click_dist),
                range: Range::not_negative(),
                drag_speed: 1000,
                hover: "If the pointer moves more than this, it won't become a click",
            },
            SettingRow {
                label: "Max click duration",
                setting: Setting::MaxClickDuration(self.max_click_duration),
                range: Range::at_least(LEAST_CLICK_DURATION),
                drag_speed: 100,
                hover: "If the pointer is down for longer than this it will no longer register as a click",
            },
            SettingRow {
                label: "Max double click delay",
                setting: Setting::MaxDoubleClickDelay(self.max_double_click_delay),
                range: Range::at_least(LEAST_DOUBLE_CLICK_DELAY),
                drag_speed: 100,
                hover: "Max time interval for double click to count",
            },
            SettingRow {
                label: "zoom_modifier",
                setting: Setting::ZoomModifier(self.zoom_modifier),
                range: Range::Free,
                drag_speed: 0,
                hover: "",
            },
            SettingRow {
                label: "horizontal_scroll_modifier",
                setting: Setting::HorizontalScrollModifier(self.horizontal_scroll_modifier),
                range: Range::Free,
                drag_speed: 0,
                hover: "",
            },
            SettingRow {
                label: "vertical_scroll_modifier",
                setting: Setting::VerticalScrollModifier(self.vertical_scroll_modifier),
                range: Range::Free,
                drag_speed: 0,
                hover: "",
            },
        ]
    }

    /// The options after one of them was changed in the form. Speeds and distances are not
    /// negative, a click may take a tenth of a second at least, and a double click a
    /// hundredth.
    pub open spec fn with(self, setting: Setting) -> InputOptions {
        match setting {
            Setting::LineScrollSpeed(speed) => InputOptions {
                line_scroll_speed: Fixed { raw: at_least(speed.raw, 0) },
                ..self
            },
            Setting::ScrollZoomSpeed(speed) => InputOptions {
                scroll_zoom_speed: Fixed { raw: at_least(speed.raw, 0) },
                ..self
            },
            Setting::MaxClickDist(dist) => InputOptions {
                max_click_dist: Fixed { raw: at_least(dist.raw, 0) },
                ..self
            },
            Setting::MaxClickDuration(span) => InputOptions {
                max_click_duration: at_least(span, LEAST_CLICK_DURATION),
                ..self
            },
            Setting::MaxDoubleClickDelay(span) => InputOptions {
                max_double_click_delay: at_least(span, LEAST_DOUBLE_CLICK_DELAY),
                ..self
            },
            Setting::ZoomModifier(modifiers) => InputOptions { zoom_modifier: modifiers, ..self },
            Setting::HorizontalScrollModifier(modifiers) => InputOptions {
                horizontal_scroll_modifier: modifiers,
                ..self
            },
            Setting::VerticalScrollModifier(modifiers) => InputOptions {
                vertical_scroll_modifier: modifiers,
                ..self
            },
        }
    }

    /// Changes one of the options, to a value within its range.
    pub fn set(&mut self, setting: Setting)
        ensures
            *final(self) == old(self).with(setting),
    {
        let before = *self;
        *self = match setting {
            Setting::LineScrollSpeed(speed) => InputOptions {
                line_scroll_speed: Fixed { raw: raised(speed.raw, 0) },
                ..before
            },
            Setting::ScrollZoomSpeed(speed) => InputOptions {
                scroll_zoom_speed: Fixed { raw: raised(speed.raw, 0) },
                ..before
            },
            Setting::MaxClickDist(dist) => InputOptions {
                max_click_dist: Fixed { raw: raised(dist.raw, 0) },
                ..before
            },
            Setting::MaxClickDuration(span) => InputOptions {
                max_click_duration: raised(span, LEAST_CLICK_DURATION),
                ..before
            },
            Setting::MaxDoubleClickDelay(span) => InputOptions {
                max_double_click_delay: raised(span, LEAST_DOUBLE_CLICK_DELAY),
                ..before
            },
            Setting::ZoomModifier(modifiers) => InputOptions { zoom_modifier: modifiers, ..before },
            Setting::HorizontalScrollModifier(modifiers) => InputOptions {
                horizontal_scroll_modifier: modifiers,
                ..before
            },
            Setting::VerticalScrollModifier(modifiers) => InputOptions {
                vertical_scroll_modifier: modifiers,
                ..before
            },
        };
    }
}

} // verus!
