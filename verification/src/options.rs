//! How input is turned into clicks, scrolls and zooms.

use crate::fixed::Fixed;
use crate::modifiers::Modifiers;
use crate::time::Nanos;
use vstd::prelude::*;

verus! {

/// Options for input state handling.
#[derive(Clone, Copy, Debug, PartialEq, Eq, Structural)]
pub struct InputOptions {
    /// Multiplier for the scroll speed when reported in lines.
    pub line_scroll_speed: Fixed,

    /// Controls the speed at which we zoom in when doing ctrl/cmd + scroll.
    pub scroll_zoom_speed: Fixed,

    /// After a pointer-down event, if the pointer moves more than this, it won't become a click.
    pub max_click_dist: Fixed,

    /// If the pointer is down for longer than this it will no longer register as a click.
    ///
    /// If a touch is held for this long while still, then it will register as a
    /// "long-touch" which is equivalent to a secondary click.
    ///
    /// This is to support "press and hold for context menu" on touch screens.
    pub max_click_duration: Nanos,

    /// The new pointer press must come within this time from previous pointer release
    /// for double click (or when this value is doubled, triple click) to count.
    pub max_double_click_delay: Nanos,

    /// When this modifier is down, all scroll events are treated as zoom events.
    ///
    /// The default is CTRL/CMD, and it is STRONGLY recommended to NOT change this.
    pub zoom_modifier: Modifiers,

    /// When this modifier is down, all scroll events are treated as horizontal scrolls,
    /// and when combined with `zoom_modifier` it will result in zooming
    /// on only the horizontal axis.
    ///
    /// The default is SHIFT, and it is STRONGLY recommended to NOT change this.
    pub horizontal_scroll_modifier: Modifiers,

    /// When this modifier is down, all scroll events are treated as vertical scrolls,
    /// and when combined with `zoom_modifier` it will result in zooming
    /// on only the vertical axis.
    pub vertical_scroll_modifier: Modifiers,
}

impl Default for InputOptions {
    fn default() -> (r: Self)
        ensures
            r == InputOptions::for_platform(false),
    {
        InputOptions::for_platform(false)
    }
}

impl InputOptions {
    pub open spec fn spec_for_platform(is_web: bool) -> InputOptions {
        InputOptions {
            line_scroll_speed: Fixed::from_int(if is_web { 8 } else { 40 }),
            scroll_zoom_speed: Fixed { raw: 21_474_836 },
            max_click_dist: Fixed::from_int(6),
            max_click_duration: 800_000_000,
            max_double_click_delay: 300_000_000,
            zoom_modifier: Modifiers::command(),
            horizontal_scroll_modifier: Modifiers::shift(),
            vertical_scroll_modifier: Modifiers::alt(),
        }
    }

    /// The default options. Lines scroll by less on the web.
    ///
    /// The zoom speed is the single-precision float nearest to `1 / 200`.
    #[verifier::when_used_as_spec(spec_for_platform)]
    pub fn for_platform(is_web: bool) -> (r: InputOptions)
        ensures
            r == InputOptions::spec_for_platform(is_web),
    {
        let line_scroll_speed = Fixed::from_int(if is_web { 8 } else { 40 });
        InputOptions {
            line_scroll_speed,
            scroll_zoom_speed: Fixed { raw: 21_474_836 },
            max_click_dist: Fixed::from_int(6),
            max_click_duration: 800_000_000,
            max_double_click_delay: 300_000_000,
            zoom_modifier: Modifiers::command(),
            horizontal_scroll_modifier: Modifiers::shift(),
            vertical_scroll_modifier: Modifiers::alt(),
        }
    }
}

} // verus!
