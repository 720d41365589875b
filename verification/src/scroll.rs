//! Scrolling and zooming with the mouse wheel.

use crate::data::{Event, MouseWheelUnit};
use crate::fixed::Fixed;
use crate::geometry::{Rect, Vec2};
use crate::modifiers::Modifiers;
use crate::options::InputOptions;
use vstd::prelude::*;

verus! {

/// What the wheel did in a frame.
#[derive(Clone, Copy, Debug, PartialEq, Eq, Structural)]
pub struct Scroll {
    /// All that was scrolled in this frame.
    pub raw_scroll_delta: Vec2,
    /// What is to be scrolled over the frames to come.
    pub unprocessed_scroll_delta: Vec2,
    /// What is to be zoomed over the frames to come.
    pub unprocessed_scroll_delta_for_zoom: Fixed,
    /// What is scrolled in this frame.
    pub smooth_scroll_delta: Vec2,
    /// What is zoomed in this frame, as a scroll.
    pub smooth_scroll_delta_for_zoom: Fixed,
    /// What is zoomed in this frame, as a factor.
    pub zoom_factor_delta: Fixed,
}

/// Only along which axis the modifiers let the wheel act: whether along the horizontal one.
pub open spec fn only_horizontal(modifiers: Modifiers, options: InputOptions) -> bool {
    modifiers.matches_any(options.horizontal_scroll_modifier) && !modifiers.matches_any(
        options.vertical_scroll_modifier,
    )
}

/// Only along which axis the modifiers let the wheel act: whether along the vertical one.
pub open spec fn only_vertical(modifiers: Modifiers, options: InputOptions) -> bool {
    !modifiers.matches_any(options.horizontal_scroll_modifier) && modifiers.matches_any(
        options.vertical_scroll_modifier,
    )
}

/// How many points a turn of the wheel scrolls.
pub open spec fn wheel_points(unit: MouseWheelUnit, delta: Vec2, options: InputOptions, screen: Rect) -> Vec2 {
    match unit {
        MouseWheelUnit::Point => delta,
        MouseWheelUnit::Line => delta.scaled(options.line_scroll_speed),
        MouseWheelUnit::Page => delta.scaled(screen.height()),
    }
}

/// The scroll, turned along the one axis that the modifiers leave, if they do.
pub open spec fn turned(delta: Vec2, modifiers: Modifiers, options: InputOptions) -> Vec2 {
    let zero = Fixed { raw: 0 };
    if only_horizontal(modifiers, options) {
        Vec2 { x: delta.x.plus(delta.y), y: zero }
    } else if only_vertical(modifiers, options) {
        Vec2 { x: zero, y: delta.x.plus(delta.y) }
    } else {
        delta
    }
}

/// Whether a scroll needs no smoothing, as it comes in small steps.
///
/// A single notch of a mouse wheel is a large step. A trackpad gives many small ones, and
/// smoothing those would only add latency.
pub open spec fn is_smooth(unit: MouseWheelUnit, delta: Vec2) -> bool {
    unit is Point && delta.length_squared() < crate::geometry::square(Fixed::from_int(8).raw as int)
}

/// What of a pending scroll is carried out in a frame of which `t` is the smoothing factor.
pub open spec fn applied(pending: Fixed, t: Fixed) -> Fixed {
    if pending.within(Fixed::from_int(1)) {
        pending
    } else {
        t.times(pending)
    }
}

impl Scroll {
    /// A frame in which the wheel has not moved, with what is pending from earlier frames.
    pub open spec fn spec_start(pending: Vec2, pending_zoom: Fixed) -> Scroll {
        Scroll {
            raw_scroll_delta: Vec2::zero(),
            unprocessed_scroll_delta: pending,
            unprocessed_scroll_delta_for_zoom: pending_zoom,
            smooth_scroll_delta: Vec2::zero(),
            smooth_scroll_delta_for_zoom: Fixed { raw: 0 },
            zoom_factor_delta: Fixed::from_int(1),
        }
    }

    /// A frame in which the wheel has not moved, with what is pending from earlier frames.
    #[verifier::when_used_as_spec(spec_start)]
    pub fn start(pending: Vec2, pending_zoom: Fixed) -> (r: Scroll)
        ensures
            r == Scroll::spec_start(pending, pending_zoom),
    {
        Scroll {
            raw_scroll_delta: Vec2::zero(),
            unprocessed_scroll_delta: pending,
            unprocessed_scroll_delta_for_zoom: pending_zoom,
            smooth_scroll_delta: Vec2::zero(),
            smooth_scroll_delta_for_zoom: Fixed { raw: 0 },
            zoom_factor_delta: Fixed::from_int(1),
        }
    }

    /// The frame after a scroll by `delta` points.
    pub open spec fn scrolled(self, delta: Vec2, smooth: bool, zoom: bool) -> Scroll {
        let whole = Scroll { raw_scroll_delta: self.raw_scroll_delta.plus(delta), ..self };
        if zoom && smooth {
            Scroll {
                smooth_scroll_delta_for_zoom: self.smooth_scroll_delta_for_zoom.plus(delta.x.plus(delta.y)),
                ..whole
            }
        } else if zoom {
            Scroll {
                unprocessed_scroll_delta_for_zoom: self.unprocessed_scroll_delta_for_zoom.plus(
                    delta.x.plus(delta.y),
                ),
                ..whole
            }
        } else if smooth {
            Scroll { smooth_scroll_delta: self.smooth_scroll_delta.plus(delta), ..whole }
        } else {
            Scroll { unprocessed_scroll_delta: self.unprocessed_scroll_delta.plus(delta), ..whole }
        }
    }

    /// The frame after an event.
    pub open spec fn after_event(self, event: Event, options: InputOptions, screen: Rect) -> Scroll {
        match event {
            Event::MouseWheel { unit, delta, modifiers } => {
                let points = turned(wheel_points(unit, delta, options, screen), modifiers, options);
                self.scrolled(points, is_smooth(unit, points), modifiers.matches_any(options.zoom_modifier))
            },
            Event::Zoom(factor) => Scroll { zoom_factor_delta: self.zoom_factor_delta.times(factor), ..self },
            _ => self,
        }
    }

    /// The frame after a sequence of events.
    pub open spec fn after_events(self, events: Seq<Event>, options: InputOptions, screen: Rect) -> Scroll
        decreases events.len(),
    {
        if events.len() == 0 {
            self
        } else {
            self.after_events(events.drop_last(), options, screen).after_event(events.last(), options, screen)
        }
    }

    /// The frame with its part of what is pending carried out.
    pub open spec fn spec_smoothed(self, t: Fixed) -> Scroll {
        let pending = self.unprocessed_scroll_delta;
        let part = Vec2 { x: applied(pending.x, t), y: applied(pending.y, t) };
        let zoom_part = applied(self.unprocessed_scroll_delta_for_zoom, t);
        Scroll {
            smooth_scroll_delta: self.smooth_scroll_delta.plus(part),
            unprocessed_scroll_delta: Vec2 { x: pending.x.minus(part.x), y: pending.y.minus(part.y) },
            smooth_scroll_delta_for_zoom: self.smooth_scroll_delta_for_zoom.plus(zoom_part),
            unprocessed_scroll_delta_for_zoom: self.unprocessed_scroll_delta_for_zoom.minus(zoom_part),
            ..self
        }
    }

    /// Takes in one event.
    fn on_event(self, event: &Event, options: InputOptions, screen: Rect) -> (r: Scroll)
        ensures
            r == self.after_event(*event, options, screen),
    {
        match event {
            Event::MouseWheel { unit, delta, modifiers } => {
                let mut points = match unit {
                    MouseWheelUnit::Point => *delta,
                    MouseWheelUnit::Line => delta.scaled(options.line_scroll_speed),
                    MouseWheelUnit::Page => delta.scaled(screen.height()),
                };

                let is_horizontal = modifiers.matches_any(options.horizontal_scroll_modifier);
                let is_vertical = modifiers.matches_any(options.vertical_scroll_modifier);

                if is_horizontal && !is_vertical {
                    // Treat all scrolling as horizontal scrolling.
                    // Note: on Mac we already get horizontal scroll events when shift is down.
                    points = Vec2 { x: points.x.plus(points.y), y: Fixed { raw: 0 } };
                } else if !is_horizontal && is_vertical {
                    // Treat all scrolling as vertical scrolling.
                    points = Vec2 { x: Fixed { raw: 0 }, y: points.x.plus(points.y) };
                }

                let smooth = match unit {
                    MouseWheelUnit::Point => points.is_shorter_than(Fixed::from_int(8)),
                    MouseWheelUnit::Line | MouseWheelUnit::Page => false,
                };
                let zoom = modifiers.matches_any(options.zoom_modifier);

                let mut scroll = self;
                scroll.raw_scroll_delta = self.raw_scroll_delta.plus(points);
                if zoom {
                    let amount = points.x.plus(points.y);
                    if smooth {
                        scroll.smooth_scroll_delta_for_zoom = self.smooth_scroll_delta_for_zoom.plus(amount);
                    } else {
                        scroll.unprocessed_scroll_delta_for_zoom =
                        self.unprocessed_scroll_delta_for_zoom.plus(amount);
                    }
                } else {
                    if smooth {
                        scroll.smooth_scroll_delta = self.smooth_scroll_delta.plus(points);
                    } else {
                        scroll.unprocessed_scroll_delta = self.unprocessed_scroll_delta.plus(points);
                    }
                }
                scroll
            },
            Event::Zoom(factor) => {
                let mut scroll = self;
                scroll.zoom_factor_delta = self.zoom_factor_delta.times(*factor);
                scroll
            },
            _ => self,
        }
    }

    /// Takes in the events of a frame, in order.
    pub fn on_events(self, events: &Vec<Event>, options: InputOptions, screen: Rect) -> (r: Scroll)
        ensures
            r == self.after_events(events@, options, screen),
    {
        let mut scroll = self;
        let mut i: usize = 0;
        while i < events.len()
            invariant
                i <= events.len(),
                scroll == self.after_events(events@.take(i as int), options, screen),
            decreases events.len() - i,
        {
            scroll = scroll.on_event(&events[i], options, screen);
            assert(events@.take(i + 1).drop_last() =~= events@.take(i as int));
            i += 1;
        }
        assert(events@.take(i as int) =~= events@);
        scroll
    }

    /// Carries out the frame's part of what is pending: small rests at once, and of the
    /// others the fraction `t`.
    #[verifier::when_used_as_spec(spec_smoothed)]
    pub fn smoothed(self, t: Fixed) -> (r: Scroll)
        ensures
            r == self.spec_smoothed(t),
    {
        let pending = self.unprocessed_scroll_delta;
        let (x, rest_x) = split(pending.x, t);
        let (y, rest_y) = split(pending.y, t);
        let (zoom, rest_zoom) = split(self.unprocessed_scroll_delta_for_zoom, t);
        let mut scroll = self;
        scroll.smooth_scroll_delta = self.smooth_scroll_delta.plus(Vec2 { x, y });
        scroll.unprocessed_scroll_delta = Vec2 { x: rest_x, y: rest_y };
        scroll.smooth_scroll_delta_for_zoom = self.smooth_scroll_delta_for_zoom.plus(zoom);
        scroll.unprocessed_scroll_delta_for_zoom = rest_zoom;
        scroll
    }
}

/// Splits a pending scroll into what is carried out now and what is left.
fn split(pending: Fixed, t: Fixed) -> (r: (Fixed, Fixed))
    ensures
        r.0 == applied(pending, t),
        r.1 == pending.minus(applied(pending, t)),
{
    if pending.is_within(Fixed::from_int(1)) {
        (pending, Fixed { raw: 0 })
    } else {
        let part = t.times(pending);
        (part, pending.minus(part))
    }
}

} // verus!
