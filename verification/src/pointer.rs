//! The state of the mouse, and of simple touch gestures which can be mapped to mouse operations.

use crate::data::{Event, PointerButton, RawInput, NUM_POINTER_BUTTONS};
use crate::fixed::{clamp_wide, Fixed};
use crate::geometry::{Pos2, Rect, Vec2};
use crate::history::History;
use crate::modifiers::Modifiers;
use crate::options::InputOptions;
use crate::time::{elapsed, Nanos, NEG_INFINITY};
use crate::ui::{Line, Value};
use vstd::prelude::*;

verus! {

/// How long the pointer must have been followed for its velocity to be trusted.
pub const MIN_VELOCITY_SPAN: Nanos = 10_000_000;

/// A pointer (mouse or touch) click.
#[derive(Clone, Copy, Debug, PartialEq, Eq, Structural)]
pub struct Click {
    pub pos: Pos2,

    /// 1 or 2 (double-click) or 3 (triple-click)
    pub count: u32,

    /// Allows you to check for e.g. shift-click
    pub modifiers: Modifiers,
}

impl Click {
    pub open spec fn spec_is_double(&self) -> bool {
        self.count == 2
    }

    /// Whether this is the second click in a row.
    #[verifier::when_used_as_spec(spec_is_double)]
    pub fn is_double(&self) -> (r: bool)
        ensures
            r == (self.count == 2),
    {
        self.count == 2
    }

    pub open spec fn spec_is_triple(&self) -> bool {
        self.count == 3
    }

    /// Whether this is the third click in a row.
    #[verifier::when_used_as_spec(spec_is_triple)]
    pub fn is_triple(&self) -> (r: bool)
        ensures
            r == (self.count == 3),
    {
        self.count == 3
    }
}

/// Something that the pointer did.
#[derive(Clone, Copy, Debug, PartialEq, Eq, Structural)]
pub enum PointerEvent {
    Moved(Pos2),
    Pressed { position: Pos2, button: PointerButton },
    Released {
        /// The click that the release completed, if it did.
        click: Option<Click>,
        button: PointerButton,
    },
}

impl PointerEvent {
    pub open spec fn spec_is_press(&self) -> bool {
        self is Pressed
    }

    /// Whether a button was pressed.
    #[verifier::when_used_as_spec(spec_is_press)]
    pub fn is_press(&self) -> (r: bool)
        ensures
            r == (self is Pressed),
    {
        matches!(self, PointerEvent::Pressed { .. })
    }

    pub open spec fn spec_is_release(&self) -> bool {
        self is Released
    }

    /// Whether a button was released.
    #[verifier::when_used_as_spec(spec_is_release)]
    pub fn is_release(&self) -> (r: bool)
        ensures
            r == (self is Released),
    {
        matches!(self, PointerEvent::Released { .. })
    }

    pub open spec fn spec_is_click(&self) -> bool {
        self matches PointerEvent::Released { click: Some(_), .. }
    }

    /// Whether a button was released so that it made a click.
    #[verifier::when_used_as_spec(spec_is_click)]
    pub fn is_click(&self) -> (r: bool)
        ensures
            r == (self is Released && self->click is Some),
    {
        matches!(self, PointerEvent::Released { click: Some(_), .. })
    }

    /// Whether this is a press of the given button.
    pub open spec fn presses(self, button: PointerButton) -> bool {
        self matches PointerEvent::Pressed { button: b, .. } && b == button
    }

    /// Whether this is a release of the given button.
    pub open spec fn releases(self, button: PointerButton) -> bool {
        self matches PointerEvent::Released { button: b, .. } && b == button
    }

    /// Whether this is a click of the given button.
    pub open spec fn clicks(self, button: PointerButton) -> bool {
        self matches PointerEvent::Released { click: Some(_), button: b } && b == button
    }

    /// Whether this is a click of the given button, so many in a row.
    pub open spec fn clicks_times(self, button: PointerButton, count: u32) -> bool {
        self matches PointerEvent::Released { click: Some(click), button: b } && b == button && click.count == count
    }

    /// Whether this is of the given kind.
    spec fn is_of(self, kind: Kind) -> bool {
        match kind {
            Kind::Press(button) => self.presses(button),
            Kind::Release(button) => self.releases(button),
            Kind::AnyClick => self.is_click(),
            Kind::Click(button) => self.clicks(button),
            Kind::Clicks(button, count) => self.clicks_times(button, count),
        }
    }

    /// Whether this is of the given kind.
    fn fits(&self, kind: Kind) -> (r: bool)
        ensures
            r == self.is_of(kind),
    {
        match self {
            PointerEvent::Moved(_) => false,
            PointerEvent::Pressed { button, .. } => match kind {
                Kind::Press(wanted) => *button == wanted,
                _ => false,
            },
            PointerEvent::Released { click, button } => match kind {
                Kind::Press(_) => false,
                Kind::Release(wanted) => *button == wanted,
                Kind::AnyClick => click.is_some(),
                Kind::Click(wanted) => *button == wanted && click.is_some(),
                Kind::Clicks(wanted, count) => match click {
                    Some(click) => *button == wanted && click.count == count,
                    None => false,
                },
            },
        }
    }
}

/// A kind of what the pointer can do.
#[derive(Clone, Copy)]
enum Kind {
    /// A press of the button.
    Press(PointerButton),
    /// A release of the button.
    Release(PointerButton),
    /// A click of whatever button.
    AnyClick,
    /// A click of the button.
    Click(PointerButton),
    /// A click of the button, so many in a row.
    Clicks(PointerButton, u32),
}

/// A button that is down: where and when it was pressed, and whether the pointer has moved too
/// much since for it to be registered as a click.
#[derive(Clone, Copy, Debug, PartialEq, Eq, Structural)]
pub struct Hold {
    pub origin: Pos2,
    pub start: Nanos,
    pub has_moved_too_much_for_a_click: bool,
    /// Whether it was seen as a long press in an earlier frame.
    pub was_long_press: bool,
}

impl Hold {
    pub open spec fn spec_carried(self, pos: Pos2, max_click_dist: Fixed) -> Hold {
        Hold {
            has_moved_too_much_for_a_click: self.has_moved_too_much_for_a_click || self.origin.farther_than(
                pos,
                max_click_dist,
            ),
            ..self
        }
    }

    /// The hold after the pointer came to a position.
    #[verifier::when_used_as_spec(spec_carried)]
    pub fn carried(self, pos: Pos2, max_click_dist: Fixed) -> (r: Hold)
        ensures
            r == self.spec_carried(pos, max_click_dist),
    {
        let has_moved_too_much_for_a_click = self.has_moved_too_much_for_a_click || self.origin.is_farther_than(
            pos,
            max_click_dist,
        );
        Hold {
            origin: self.origin,
            start: self.start,
            has_moved_too_much_for_a_click,
            was_long_press: self.was_long_press,
        }
    }

    pub open spec fn spec_is_too_long(self, time: Nanos, options: InputOptions) -> bool {
        elapsed(time, self.start) > options.max_click_duration
    }

    /// Whether the button has been down for longer than a click may take.
    #[verifier::when_used_as_spec(spec_is_too_long)]
    pub fn is_too_long(self, time: Nanos, options: InputOptions) -> (r: bool)
        ensures
            r == self.spec_is_too_long(time, options),
    {
        elapsed(time, self.start) > options.max_click_duration
    }

    pub open spec fn spec_could_be_click(self, time: Nanos, options: InputOptions) -> bool {
        !self.has_moved_too_much_for_a_click && !self.is_too_long(time, options)
    }

    /// Whether the button would register as a click if it were released now, where it is.
    #[verifier::when_used_as_spec(spec_could_be_click)]
    pub fn could_be_click(self, time: Nanos, options: InputOptions) -> (r: bool)
        ensures
            r == self.spec_could_be_click(time, options),
    {
        !self.has_moved_too_much_for_a_click && !self.is_too_long(time, options)
    }
}

/// What a [`PointerState`] holds, as mathematical values.
#[verifier::ext_equal]
pub struct PointerModel {
    pub time: Nanos,
    pub latest_pos: Option<Pos2>,
    pub interact_pos: Option<Pos2>,
    pub delta: Vec2,
    pub motion: Option<Vec2>,
    pub velocity: Vec2,
    pub direction: Vec2,
    pub pos_history: Seq<(Nanos, Pos2)>,
    /// The hold of each button that is down.
    pub holds: Seq<Option<Hold>>,
    /// Whether a button that was up was pressed this frame.
    pub went_down: bool,
    /// Whether a button that was down was released this frame.
    pub went_up: bool,
    pub press_origin: Option<Pos2>,
    pub press_start_time: Option<Nanos>,
    pub has_moved_too_much_for_a_click: bool,
    pub started_decidedly_dragging: bool,
    pub last_click_time: Nanos,
    pub last_last_click_time: Nanos,
    pub last_move_time: Nanos,
    pub pointer_events: Seq<PointerEvent>,
    pub options: InputOptions,
}

impl PointerModel {
    /// A pointer of which nothing has been heard.
    pub open spec fn initial(is_web: bool) -> PointerModel {
        PointerModel {
            time: NEG_INFINITY,
            latest_pos: None,
            interact_pos: None,
            delta: Vec2::zero(),
            motion: None,
            velocity: Vec2::zero(),
            direction: Vec2::zero(),
            pos_history: Seq::empty(),
            holds: seq![None, None, None, None, None],
            went_down: false,
            went_up: false,
            press_origin: None,
            press_start_time: None,
            has_moved_too_much_for_a_click: false,
            started_decidedly_dragging: false,
            last_click_time: NEG_INFINITY,
            last_last_click_time: NEG_INFINITY,
            last_move_time: NEG_INFINITY,
            pointer_events: Seq::empty(),
            options: InputOptions::for_platform(is_web),
        }
    }

    /// Whether some event of this frame is of the given kind.
    pub open spec fn any_event(self, kind: spec_fn(PointerEvent) -> bool) -> bool {
        exists|i: int| 0 <= i < self.pointer_events.len() && kind(#[trigger] self.pointer_events[i])
    }

    pub open spec fn any_pressed(self) -> bool {
        self.went_down
    }

    pub open spec fn any_released(self) -> bool {
        self.went_up
    }

    pub open spec fn any_click(self) -> bool {
        self.any_event(|e: PointerEvent| e.is_click())
    }

    /// Which buttons are down.
    pub open spec fn down(self) -> Seq<bool> {
        self.holds.map_values(|hold: Option<Hold>| hold is Some)
    }

    pub open spec fn any_down(self) -> bool {
        exists|i: int| 0 <= i < self.holds.len() && #[trigger] self.holds[i] is Some
    }

    /// The hold of a button, if it is down.
    pub open spec fn hold(self, button: PointerButton) -> Option<Hold> {
        self.holds[button.index() as int]
    }

    pub open spec fn button_down(self, button: PointerButton) -> bool {
        self.hold(button) is Some
    }

    /// Whether the button at the given place is down, and neither has been so for too long nor has
    /// moved too much for a click.
    pub open spec fn could_be_click(self, i: int) -> bool {
        self.holds[i] matches Some(hold) && hold.could_be_click(self.time, self.options)
    }

    pub open spec fn could_any_button_be_click(self) -> bool {
        &&& self.any_down() || self.any_released()
        &&& !self.has_moved_too_much_for_a_click
        &&& self.any_down() ==> exists|i: int| 0 <= i < self.holds.len() && #[trigger] self.could_be_click(i)
    }

    pub open spec fn is_decidedly_dragging(self) -> bool {
        &&& self.any_down() || self.any_released()
        &&& !self.any_pressed()
        &&& !self.could_any_button_be_click()
        &&& !self.any_click()
    }

    pub open spec fn is_long_press(self) -> bool {
        &&& self.started_decidedly_dragging
        &&& !self.has_moved_too_much_for_a_click
        &&& self.hold(PointerButton::Primary) matches Some(hold) && !hold.has_moved_too_much_for_a_click
            && !hold.was_long_press
        &&& self.held_too_long()
    }

    /// Whether the latest press is longer ago than a click may take.
    pub open spec fn held_too_long(self) -> bool {
        self.press_start_time matches Some(start) && elapsed(self.time, start) > self.options.max_click_duration
    }

    /// The holds, with the note that a long press has been seen if it has been.
    pub open spec fn noted(self) -> Seq<Option<Hold>> {
        match self.hold(PointerButton::Primary) {
            Some(hold) if self.is_long_press() => self.holds.update(
                PointerButton::Primary.index() as int,
                Some(Hold { was_long_press: true, ..hold }),
            ),
            _ => self.holds,
        }
    }

    /// What holds of every pointer: there is an origin of a press if and only if there is a time of
    /// it, and then a button is down. What started to be a drag is one.
    pub open spec fn wf(self) -> bool {
        &&& self.holds.len() == NUM_POINTER_BUTTONS
        &&& self.press_origin is Some <==> self.press_start_time is Some
        &&& self.press_origin is Some ==> self.any_down()
        &&& self.started_decidedly_dragging ==> self.is_decidedly_dragging()
        &&& self.pos_history.len() <= crate::history::MAX_LEN
    }

    pub open spec fn is_still(self) -> bool {
        self.velocity == Vec2::zero()
    }

    pub open spec fn is_moving(self) -> bool {
        self.velocity != Vec2::zero()
    }

    /// How many clicks in a row a click now would be, if its button was pressed at `start`.
    pub open spec fn click_count(self, start: Nanos) -> u32 {
        let delay = self.options.max_double_click_delay;
        if elapsed(start, self.last_last_click_time) < crate::fixed::clamp(2 * delay) {
            3
        } else if elapsed(start, self.last_click_time) < delay {
            2
        } else {
            1
        }
    }

    /// Whether the lines are what an inspector shows of the pointer.
    pub open spec fn is_shown(self, r: Seq<Line<'_>>) -> bool {
        &&& r.len() == 15
        &&& r.take(6) =~= seq![
            Line::of("latest_pos: ", Value::Pos(self.latest_pos), ""),
            Line::of("interact_pos: ", Value::Pos(self.interact_pos), ""),
            Line::of("delta: ", Value::Vector(self.delta), ""),
            Line::of("motion: ", Value::Motion(self.motion), ""),
            Line::of("velocity: ", Value::Velocity(self.velocity), " points/sec"),
            Line::of("direction: ", Value::Vector(self.direction), ""),
        ]
        &&& r[6] matches Line { label: "down: ", value: Value::Buttons(down), unit: "", hover: "" } && down@
            == self.down()
        &&& r.subrange(7, 14) =~= seq![
            Line::of("press_origin: ", Value::Pos(self.press_origin), ""),
            Line::of("press_start_time: ", Value::MaybeTime(self.press_start_time), " s"),
            Line::of("has_moved_too_much_for_a_click: ", Value::Flag(self.has_moved_too_much_for_a_click), ""),
            Line::of("started_decidedly_dragging: ", Value::Flag(self.started_decidedly_dragging), ""),
            Line::of("last_click_time: ", Value::Time(self.last_click_time), ""),
            Line::of("last_last_click_time: ", Value::Time(self.last_last_click_time), ""),
            Line::of("last_move_time: ", Value::Time(self.last_move_time), ""),
        ]
        &&& r[14] matches Line { label: "pointer_events: ", value: Value::PointerEvents(events), unit: "", hover: "" }
            && events@ == self.pointer_events
    }

    /// The state at the start of a frame, before its events.
    pub open spec fn frame_started(self, time: Nanos, options: InputOptions) -> PointerModel {
        PointerModel {
            time,
            options,
            pointer_events: Seq::empty(),
            went_down: false,
            went_up: false,
            holds: self.noted(),
            interact_pos: self.latest_pos,
            motion: match self.motion {
                Some(_) => Some(Vec2::zero()),
                None => None,
            },
            ..self
        }
    }

    /// The holds after the pointer came to a position.
    pub open spec fn carried(self, pos: Pos2) -> Seq<Option<Hold>> {
        let max_click_dist = self.options.max_click_dist;
        self.holds.map_values(
            |hold: Option<Hold>|
                match hold {
                    Some(hold) => Some(hold.carried(pos, max_click_dist)),
                    None => None,
                },
        )
    }

    /// The state after the pointer moved.
    pub open spec fn moved(self, pos: Pos2) -> PointerModel {
        PointerModel {
            latest_pos: Some(pos),
            interact_pos: Some(pos),
            holds: self.carried(pos),
            has_moved_too_much_for_a_click: self.has_moved_too_much_at(pos),
            last_move_time: self.time,
            pointer_events: self.pointer_events.push(PointerEvent::Moved(pos)),
            ..self
        }
    }

    /// The state after a button was pressed. A button that was down already stays held from
    /// where and when it went down.
    pub open spec fn pressed(self, pos: Pos2, button: PointerButton) -> PointerModel {
        PointerModel {
            latest_pos: Some(pos),
            interact_pos: Some(pos),
            pos_history: Seq::empty(),
            press_origin: Some(pos),
            press_start_time: Some(self.time),
            has_moved_too_much_for_a_click: false,
            pointer_events: self.pointer_events.push(PointerEvent::Pressed { position: pos, button }),
            went_down: self.went_down || !self.button_down(button),
            holds: if self.button_down(button) {
                self.carried(pos)
            } else {
                self.carried(pos).update(
                    button.index() as int,
                    Some(
                        Hold {
                            origin: pos,
                            start: self.time,
                            has_moved_too_much_for_a_click: false,
                            was_long_press: false,
                        },
                    ),
                )
            },
            ..self
        }
    }

    /// The hold that a release of a button ends, if the button is down.
    pub open spec fn ended_hold(self, pos: Pos2, button: PointerButton) -> Option<Hold> {
        self.carried(pos)[button.index() as int]
    }

    /// Whether the pointer has moved too much since the latest press, now that it is at a position.
    pub open spec fn has_moved_too_much_at(self, pos: Pos2) -> bool {
        self.has_moved_too_much_for_a_click || (self.press_origin matches Some(origin) && origin.farther_than(
            pos,
            self.options.max_click_dist,
        ))
    }

    /// Whether a button other than the given one is down.
    pub open spec fn others_down(self, button: PointerButton) -> bool {
        exists|i: int| 0 <= i < self.holds.len() && i != button.index() && #[trigger] self.holds[i] is Some
    }

    /// The click that a release of a button would complete.
    pub open spec fn click_on_release(self, pos: Pos2, button: PointerButton, modifiers: Modifiers) -> Option<Click> {
        match self.ended_hold(pos, button) {
            Some(hold) if hold.could_be_click(self.time, self.options) && !self.has_moved_too_much_at(pos) => Some(
                Click { pos, count: self.click_count(hold.start), modifiers },
            ),
            _ => None,
        }
    }

    /// The state after a button was released.
    pub open spec fn released(self, pos: Pos2, button: PointerButton, modifiers: Modifiers) -> PointerModel {
        let click = self.click_on_release(pos, button, modifiers);
        PointerModel {
            latest_pos: Some(pos),
            interact_pos: Some(pos),
            last_last_click_time: if click is Some {
                self.last_click_time
            } else {
                self.last_last_click_time
            },
            last_click_time: if click is Some {
                self.time
            } else {
                self.last_click_time
            },
            has_moved_too_much_for_a_click: self.has_moved_too_much_at(pos) || (!self.others_down(button) && (
            self.ended_hold(pos, button) matches Some(hold) && hold.has_moved_too_much_for_a_click)),
            press_origin: None,
            press_start_time: None,
            pointer_events: self.pointer_events.push(PointerEvent::Released { click, button }),
            went_up: self.went_up || self.button_down(button),
            holds: self.carried(pos).update(button.index() as int, None),
            ..self
        }
    }

    /// The state after an event.
    pub open spec fn after_event(self, event: Event) -> PointerModel {
        match event {
            Event::PointerMoved(pos) => self.moved(pos),
            Event::PointerButton { pos, button, pressed, modifiers } => if pressed {
                self.pressed(pos, button)
            } else {
                self.released(pos, button, modifiers)
            },
            Event::PointerGone => PointerModel { latest_pos: None, ..self },
            Event::MouseMoved(delta) => PointerModel {
                motion: Some(
                    match self.motion {
                        Some(motion) => motion.plus(delta),
                        None => Vec2::zero().plus(delta),
                    },
                ),
                ..self
            },
            _ => self,
        }
    }

    /// The state after a sequence of events.
    pub open spec fn after_events(self, events: Seq<Event>) -> PointerModel
        decreases events.len(),
    {
        if events.len() == 0 {
            self
        } else {
            self.after_events(events.drop_last()).after_event(events.last())
        }
    }

    /// The positions that are remembered at the end of a frame, before a pointer that is gone is forgotten.
    pub open spec fn remembered(self) -> Seq<(Nanos, Pos2)> {
        crate::history::flushed(
            match self.latest_pos {
                Some(pos) => crate::history::flushed(self.pos_history.push((self.time, pos)), self.time),
                None => self.pos_history,
            },
            self.time,
        )
    }

    /// The velocity that the given positions show.
    pub open spec fn velocity_of(positions: Seq<(Nanos, Pos2)>) -> Vec2 {
        if positions.len() >= 3 && crate::history::duration(positions) > MIN_VELOCITY_SPAN {
            match crate::history::velocity(positions) {
                Some(velocity) => velocity,
                None => Vec2::zero(),
            }
        } else {
            Vec2::zero()
        }
    }

    /// The direction that the given positions show.
    pub open spec fn direction_of(positions: Seq<(Nanos, Pos2)>) -> Vec2 {
        match crate::history::velocity(positions) {
            Some(velocity) => velocity.normalized(),
            None => Vec2::zero().normalized(),
        }
    }

    /// The state at the end of a frame, after its events.
    ///
    /// `old_pos` is where the pointer was before the frame, `was_dragging` whether it was
    /// decidedly dragging then, and `gone` whether it left during the frame.
    pub open spec fn frame_ended(self, old_pos: Option<Pos2>, was_dragging: bool, gone: bool) -> PointerModel {
        let velocity = PointerModel::velocity_of(self.remembered());
        let positions = if gone {
            Seq::empty()
        } else {
            self.remembered()
        };
        PointerModel {
            delta: match (old_pos, self.latest_pos) {
                (Some(old_pos), Some(new_pos)) => new_pos.minus(old_pos),
                _ => Vec2::zero(),
            },
            velocity,
            last_move_time: if velocity != Vec2::zero() {
                self.time
            } else {
                self.last_move_time
            },
            pos_history: positions,
            direction: PointerModel::direction_of(positions),
            started_decidedly_dragging: self.is_decidedly_dragging() && !was_dragging,
            ..self
        }
    }

    /// Whether the pointer left during the events.
    pub open spec fn goes(events: Seq<Event>) -> bool {
        exists|i: int| 0 <= i < events.len() && #[trigger] events[i] is PointerGone
    }

    /// The state after a frame with the given events.
    pub open spec fn after_pass(self, time: Nanos, events: Seq<Event>, options: InputOptions) -> PointerModel {
        self.frame_started(time, options).after_events(events).frame_ended(
            self.latest_pos,
            self.is_decidedly_dragging(),
            PointerModel::goes(events),
        )
    }
}

/// Mouse or touch state.
#[derive(Clone, Debug)]
pub struct PointerState {
    /// Latest known time
    time: Nanos,

    // Consider a finger tapping a touch screen.
    // What position should we report?
    // The location of the touch, or `None`, because the finger is gone?
    //
    // For some cases we want the first: e.g. to check for interaction.
    // For showing tooltips, we want the latter (no tooltips, since there are no fingers).
    /// Latest reported pointer position.
    /// When tapping a touch screen, this will be `None`.
    latest_pos: Option<Pos2>,

    /// Latest position of the mouse, but ignoring any [`Event::PointerGone`]
    /// if there were interactions this frame.
    /// When tapping a touch screen, this will be the location of the touch.
    interact_pos: Option<Pos2>,

    /// How much the pointer moved compared to last frame, in points.
    delta: Vec2,

    /// How much the mouse moved since the last frame, in unspecified units.
    /// Represents the actual movement of the mouse, without acceleration or clamped by screen edges.
    /// May be unavailable on some integrations.
    motion: Option<Vec2>,

    /// Current velocity of pointer.
    velocity: Vec2,

    /// Current direction of pointer.
    direction: Vec2,

    /// Recent movement of the pointer.
    /// Used for calculating velocity of pointer.
    pos_history: History,

    /// The buttons that are down.
    holds: [Option<Hold>; 5],

    /// Did a button go from up to down this frame?
    went_down: bool,

    /// Did a button go from down to up this frame?
    went_up: bool,

    /// Where did the current click/drag originate?
    /// `None` if no mouse button is down.
    press_origin: Option<Pos2>,

    /// When did the current click/drag originate?
    /// `None` if no mouse button is down.
    press_start_time: Option<Nanos>,

    /// Set to `true` if the pointer has moved too much (since being pressed)
    /// for it to be registered as a click.
    has_moved_too_much_for_a_click: bool,

    /// Did [`Self::is_decidedly_dragging`] go from `false` to `true` this frame?
    ///
    /// This could also be the trigger point for a long-touch.
    started_decidedly_dragging: bool,

    /// When did the pointer get click last?
    /// Used to check for double-clicks.
    last_click_time: Nanos,

    /// When did the pointer get click two clicks ago?
    /// Used to check for triple-clicks.
    last_last_click_time: Nanos,

    /// When was the pointer last moved?
    /// Used for things like showing hover ui/tooltip with a delay.
    last_move_time: Nanos,

    /// All button events that occurred this frame
    pointer_events: Vec<PointerEvent>,

    /// Input state management configuration.
    ///
    /// This gets copied from the options of the interface at the start of each frame for convenience.
    options: InputOptions,
}

impl View for PointerState {
    type V = PointerModel;

    closed spec fn view(&self) -> PointerModel {
        PointerModel {
            time: self.time,
            latest_pos: self.latest_pos,
            interact_pos: self.interact_pos,
            delta: self.delta,
            motion: self.motion,
            velocity: self.velocity,
            direction: self.direction,
            pos_history: self.pos_history@,
            holds: self.holds@,
            went_down: self.went_down,
            went_up: self.went_up,
            press_origin: self.press_origin,
            press_start_time: self.press_start_time,
            has_moved_too_much_for_a_click: self.has_moved_too_much_for_a_click,
            started_decidedly_dragging: self.started_decidedly_dragging,
            last_click_time: self.last_click_time,
            last_last_click_time: self.last_last_click_time,
            last_move_time: self.last_move_time,
            pointer_events: self.pointer_events@,
            options: self.options,
        }
    }
}

impl Default for PointerState {
    fn default() -> (r: Self)
        ensures
            r@ == PointerModel::initial(false),
            r@.wf(),
    {
        PointerState::for_platform(false)
    }
}

impl PointerState {
    /// A pointer of which nothing has been heard, with the default options.
    pub fn for_platform(is_web: bool) -> (r: Self)
        ensures
            r@ == PointerModel::initial(is_web),
            r@.wf(),
    {
        let r = PointerState {
            time: NEG_INFINITY,
            latest_pos: None,
            interact_pos: None,
            delta: Vec2::zero(),
            motion: None,
            velocity: Vec2::zero(),
            direction: Vec2::zero(),
            pos_history: History::new(),
            holds: [None, None, None, None, None],
            went_down: false,
            went_up: false,
            press_origin: None,
            press_start_time: None,
            has_moved_too_much_for_a_click: false,
            started_decidedly_dragging: false,
            last_click_time: NEG_INFINITY,
            last_last_click_time: NEG_INFINITY,
            last_move_time: NEG_INFINITY,
            pointer_events: Vec::new(),
            options: InputOptions::for_platform(is_web),
        };
        assert(r@ =~= PointerModel::initial(is_web));
        r
    }
}

impl PointerState {
    /// Every pointer has a place for each of its buttons.
    pub proof fn lemma_buttons(&self)
        ensures
            self@.holds.len() == NUM_POINTER_BUTTONS,
            self@.down().len() == NUM_POINTER_BUTTONS,
    {
    }

    /// Takes in the events of a frame.
    #[must_use]
    pub fn begin_pass(self, time: Nanos, new: &RawInput, options: InputOptions) -> (r: Self)
        ensures
            r@ == self@.after_pass(time, new.events@, options),
            self@.wf() ==> r@.wf(),
    {
        proof {
            if self@.wf() {
                crate::laws::pass_keeps_pointer_wf(self@, time, new.events@, options);
            }
        }
        let mut state = self;
        let was_decidedly_dragging = state.is_decidedly_dragging();
        let old_pos = state.latest_pos;
        state.start_frame(time, options);
        let gone = state.on_events(&new.events);
        state.end_frame(old_pos, was_decidedly_dragging, gone);
        state
    }

    /// Forgets what belongs to the previous frame.
    fn start_frame(&mut self, time: Nanos, options: InputOptions)
        ensures
            final(self)@ == old(self)@.frame_started(time, options),
    {
        if self.is_long_press() {
            let place: usize = PointerButton::Primary.index();
            if let Some(hold) = self.holds[place] {
                self.holds[place] = Some(
                    Hold {
                        origin: hold.origin,
                        start: hold.start,
                        has_moved_too_much_for_a_click: hold.has_moved_too_much_for_a_click,
                        was_long_press: true,
                    },
                );
            }
        }
        assert(self@.holds =~= old(self)@.noted());

        self.time = time;
        self.options = options;

        self.pointer_events.clear();
        self.went_down = false;
        self.went_up = false;

        self.interact_pos = self.latest_pos;
        if self.motion.is_some() {
            self.motion = Some(Vec2::zero());
        }
        assert(self@ =~= old(self)@.frame_started(time, options));
    }

    /// Takes in the events in order. Returns whether the pointer left.
    fn on_events(&mut self, events: &Vec<Event>) -> (gone: bool)
        ensures
            final(self)@ == old(self)@.after_events(events@),
            gone == PointerModel::goes(events@),
    {
        let mut gone = false;
        let mut i: usize = 0;
        while i < events.len()
            invariant
                i <= events.len(),
                self@ == old(self)@.after_events(events@.take(i as int)),
                gone == PointerModel::goes(events@.take(i as int)),
            decreases events.len() - i,
        {
            let event = &events[i];
            let ghost done = events@.take(i as int);
            let ghost next = events@.take(i + 1);
            self.on_event(event);
            if matches!(event, Event::PointerGone) {
                gone = true;
            }
            proof {
                assert(next.drop_last() =~= done);
                assert(next.last() == *event);
                if PointerModel::goes(done) {
                    let k = choose|k: int| 0 <= k < done.len() && #[trigger] done[k] is PointerGone;
                    assert(next[k] is PointerGone);
                }
                if *event is PointerGone {
                    assert(next[i as int] is PointerGone);
                }
                if PointerModel::goes(next) {
                    let k = choose|k: int| 0 <= k < next.len() && #[trigger] next[k] is PointerGone;
                    assert(k < i ==> done[k] is PointerGone);
                }
            }
            i += 1;
        }
        assert(events@.take(i as int) =~= events@);
        gone
    }

    /// Works out the movement of the frame.
    fn end_frame(&mut self, old_pos: Option<Pos2>, was_decidedly_dragging: bool, gone: bool)
        ensures
            final(self)@ == old(self)@.frame_ended(old_pos, was_decidedly_dragging, gone),
    {
        let is_decidedly_dragging = self.is_decidedly_dragging();

        self.delta = match (old_pos, self.latest_pos) {
            (Some(old_pos), Some(new_pos)) => new_pos.minus(old_pos),
            _ => Vec2::zero(),
        };

        // We do not clear the history when the position is gone, because it is exactly when a
        // finger has been released from the touch screen that we may want to assign a velocity
        // to whatever the user tried to throw.
        if let Some(pos) = self.latest_pos {
            self.pos_history.add(self.time, pos);
        }

        self.pos_history.flush(self.time);
        assert(self.pos_history@ == old(self)@.remembered());

        self.velocity = if self.pos_history.len() >= 3 && self.pos_history.duration() > MIN_VELOCITY_SPAN {
            match self.pos_history.velocity() {
                Some(velocity) => velocity,
                None => Vec2::zero(),
            }
        } else {
            Vec2::zero()
        };
        if self.velocity != Vec2::zero() {
            self.last_move_time = self.time;
        }
        if gone {
            // Only now, after the final velocity calculation, so that there is a final
            // velocity when a drag was stopped.
            self.pos_history.clear();
        }

        self.direction = match self.pos_history.velocity() {
            Some(velocity) => velocity.normalized(),
            None => Vec2::zero().normalized(),
        };

        self.started_decidedly_dragging = is_decidedly_dragging && !was_decidedly_dragging;
        assert(self@ =~= old(self)@.frame_ended(old_pos, was_decidedly_dragging, gone));
    }

    /// Takes in one event.
    fn on_event(&mut self, event: &Event)
        ensures
            final(self)@ == old(self)@.after_event(*event),
    {
        match event {
            Event::PointerMoved(pos) => {
                let pos = *pos;
                self.carry(pos);
                self.latest_pos = Some(pos);
                self.interact_pos = Some(pos);

                self.last_move_time = self.time;
                self.pointer_events.push(PointerEvent::Moved(pos));
            },
            Event::PointerButton { pos, button, pressed, modifiers } => {
                if *pressed {
                    self.on_press(*pos, *button);
                } else {
                    self.on_release(*pos, *button, *modifiers);
                }
            },
            Event::PointerGone => {
                // When dragging a slider and the mouse leaves the viewport, we still want the drag to work,
                // so we don't treat this as a `PointerEvent::Released`.
                // NOTE: we do NOT clear `self.interact_pos` here. It will be cleared next frame.
                self.latest_pos = None;
            },
            Event::MouseMoved(delta) => {
                self.motion = Some(
                    match self.motion {
                        Some(motion) => motion.plus(*delta),
                        None => Vec2::zero().plus(*delta),
                    },
                );
            },
            _ => {},
        }
        assert(self@ =~= old(self)@.after_event(*event));
    }

    /// Takes the buttons that are down along to a position, and finds out whether that is too far
    /// from where they went down or from the latest press for a click.
    fn carry(&mut self, pos: Pos2)
        ensures
            final(self)@ == (PointerModel {
                holds: old(self)@.carried(pos),
                has_moved_too_much_for_a_click: old(self)@.has_moved_too_much_at(pos),
                ..old(self)@
            }),
    {
        let ghost carried = self@.carried(pos);
        let mut i: usize = 0;
        while i < 5
            invariant
                i <= 5,
                carried == old(self)@.carried(pos),
                self@ == (PointerModel { holds: self@.holds, ..old(self)@ }),
                forall|j: int| 0 <= j < i ==> #[trigger] self@.holds[j] == carried[j],
                forall|j: int| i <= j < 5 ==> #[trigger] self@.holds[j] == old(self)@.holds[j],
            decreases 5 - i,
        {
            let ghost before = self.holds@;
            if let Some(hold) = self.holds[i] {
                self.holds[i] = Some(hold.carried(pos, self.options.max_click_dist));
            }
            assert(forall|j: int| 0 <= j < 5 && j != i ==> self.holds@[j] == before[j]);
            i += 1;
        }
        assert(self@.holds =~= carried);
        if let Some(press_origin) = self.press_origin {
            if press_origin.is_farther_than(pos, self.options.max_click_dist) {
                self.has_moved_too_much_for_a_click = true;
            }
        }
    }

    /// Takes in the press of a button.
    fn on_press(&mut self, pos: Pos2, button: PointerButton)
        ensures
            final(self)@ == old(self)@.pressed(pos, button),
    {
        self.carry(pos);
        self.latest_pos = Some(pos);
        self.interact_pos = Some(pos);

        // Start of a drag: we want to track the velocity for during the drag
        // and ignore any incoming movement
        self.pos_history.clear();

        self.press_origin = Some(pos);
        self.press_start_time = Some(self.time);
        self.has_moved_too_much_for_a_click = false;
        self.pointer_events.push(PointerEvent::Pressed { position: pos, button });

        let place: usize = button.index();
        if self.holds[place].is_none() {
            self.went_down = true;
            self.holds[place] = Some(
                Hold {
                    origin: pos,
                    start: self.time,
                    has_moved_too_much_for_a_click: false,
                    was_long_press: false,
                },
            );
        }
        assert(self@ =~= old(self)@.pressed(pos, button));
    }

    /// Takes in the release of a button.
    fn on_release(&mut self, pos: Pos2, button: PointerButton, modifiers: Modifiers)
        ensures
            final(self)@ == old(self)@.released(pos, button, modifiers),
    {
        self.carry(pos);
        self.latest_pos = Some(pos);
        self.interact_pos = Some(pos);

        let place: usize = button.index();
        let ended = self.holds[place];
        let ghost carried = self.holds@;
        self.holds[place] = None;
        let others_down = self.any_down();
        proof {
            assert(self.holds@ == carried.update(place as int, None));
            if others_down {
                let i = choose|i: int| 0 <= i < self@.holds.len() && #[trigger] self@.holds[i] is Some;
                assert(old(self)@.holds[i] is Some);
            }
            if old(self)@.others_down(button) {
                let i = choose|i: int|
                    0 <= i < old(self)@.holds.len() && i != button.index() && #[trigger] old(self)@.holds[i] is Some;
                assert(self@.holds[i] is Some);
            }
            assert(others_down == old(self)@.others_down(button));
        }

        let mut click: Option<Click> = None;
        if let Some(hold) = ended {
            if hold.could_be_click(self.time, self.options) && !self.has_moved_too_much_for_a_click {
                let count: u32 = self.click_count(hold.start);

                self.last_last_click_time = self.last_click_time;
                self.last_click_time = self.time;

                click = Some(Click { pos, count, modifiers });
            }
            if hold.has_moved_too_much_for_a_click && !others_down {
                self.has_moved_too_much_for_a_click = true;
            }
            self.went_up = true;
        }

        self.pointer_events.push(PointerEvent::Released { click, button });

        self.press_origin = None;
        self.press_start_time = None;
        assert(self@ =~= old(self)@.released(pos, button, modifiers));
    }

    /// How many clicks in a row a click now would be, if its button was pressed at `start`.
    fn click_count(&self, start: Nanos) -> (r: u32)
        ensures
            r == self@.click_count(start),
    {
        let delay: Nanos = self.options.max_double_click_delay;
        let double_click = elapsed(start, self.last_click_time) < delay;
        let triple_click = elapsed(start, self.last_last_click_time) < clamp_wide(2 * delay as i128);
        if triple_click {
            3
        } else if double_click {
            2
        } else {
            1
        }
    }

    /// Whether something that the pointer did this frame is of the given kind.
    fn any_of(&self, kind: Kind) -> (r: bool)
        ensures
            r == self@.any_event(|e: PointerEvent| e.is_of(kind)),
    {
        let mut i: usize = 0;
        while i < self.pointer_events.len()
            invariant
                i <= self.pointer_events.len(),
                forall|j: int| 0 <= j < i ==> !(#[trigger] self@.pointer_events[j]).is_of(kind),
            decreases self.pointer_events.len() - i,
        {
            if self.pointer_events[i].fits(kind) {
                assert(self@.pointer_events[i as int].is_of(kind));
                return true;
            }
            i += 1;
        }
        false
    }
}

impl PointerState {
    /// All that the pointer did this frame, in order.
    pub fn pointer_events(&self) -> (r: &Vec<PointerEvent>)
        ensures
            r@ == self@.pointer_events,
    {
        &self.pointer_events
    }

    /// Has the pointer moved too much (since being pressed) for it to be registered as a click?
    pub fn has_moved_too_much_for_a_click(&self) -> (r: bool)
        ensures
            r == self@.has_moved_too_much_for_a_click,
    {
        self.has_moved_too_much_for_a_click
    }

    /// Did [`Self::is_decidedly_dragging`] go from `false` to `true` this frame?
    ///
    /// This could also be the trigger point for a long-touch.
    pub fn started_decidedly_dragging(&self) -> (r: bool)
        ensures
            r == self@.started_decidedly_dragging,
    {
        self.started_decidedly_dragging
    }

    /// Whether the pointer did anything that shows.
    pub fn wants_repaint(&self) -> (r: bool)
        ensures
            r == (self@.pointer_events.len() > 0 || self@.delta != Vec2::zero()),
    {
        !self.pointer_events.is_empty() || self.delta != Vec2::zero()
    }

    /// How much the pointer moved compared to last frame, in points.
    pub fn delta(&self) -> (r: Vec2)
        ensures
            r == self@.delta,
    {
        self.delta
    }

    /// How much the mouse moved since the last frame, in unspecified units.
    /// Represents the actual movement of the mouse, without acceleration or clamped by screen edges.
    /// May be unavailable on some integrations.
    pub fn motion(&self) -> (r: Option<Vec2>)
        ensures
            r == self@.motion,
    {
        self.motion
    }

    /// Current velocity of pointer.
    ///
    /// This is smoothed over a few frames,
    /// but can be zero when frame-rate is bad.
    pub fn velocity(&self) -> (r: Vec2)
        ensures
            r == self@.velocity,
    {
        self.velocity
    }

    /// Current direction of the pointer.
    ///
    /// This is less sensitive to bad framerate than [`Self::velocity`].
    pub fn direction(&self) -> (r: Vec2)
        ensures
            r == self@.direction,
    {
        self.direction
    }

    /// Where did the current click/drag originate?
    /// `None` if no mouse button is down.
    pub fn press_origin(&self) -> (r: Option<Pos2>)
        ensures
            r == self@.press_origin,
    {
        self.press_origin
    }

    /// When did the current click/drag originate?
    /// `None` if no mouse button is down.
    pub fn press_start_time(&self) -> (r: Option<Nanos>)
        ensures
            r == self@.press_start_time,
    {
        self.press_start_time
    }

    /// Latest reported pointer position.
    /// When tapping a touch screen, this will be `None`.
    pub fn latest_pos(&self) -> (r: Option<Pos2>)
        ensures
            r == self@.latest_pos,
    {
        self.latest_pos
    }

    /// If it is a good idea to show a tooltip, where is pointer?
    pub fn hover_pos(&self) -> (r: Option<Pos2>)
        ensures
            r == self@.latest_pos,
    {
        self.latest_pos
    }

    /// If you detect a click or drag and wants to know where it happened, use this.
    ///
    /// Latest position of the mouse, but ignoring any [`Event::PointerGone`]
    /// if there were interactions this frame.
    /// When tapping a touch screen, this will be the location of the touch.
    pub fn interact_pos(&self) -> (r: Option<Pos2>)
        ensures
            r == self@.interact_pos,
    {
        self.interact_pos
    }

    /// Do we have a pointer?
    ///
    /// `false` if the mouse is not over the interface, or if no touches are down on touch screens.
    pub fn has_pointer(&self) -> (r: bool)
        ensures
            r == self@.latest_pos is Some,
    {
        self.latest_pos.is_some()
    }

    /// Is the pointer currently still?
    /// This is smoothed so a few frames of stillness is required before this returns `true`.
    pub fn is_still(&self) -> (r: bool)
        ensures
            r == self@.is_still(),
    {
        self.velocity == Vec2::zero()
    }

    /// Is the pointer currently moving?
    /// This is smoothed so a few frames of stillness is required before this returns `false`.
    pub fn is_moving(&self) -> (r: bool)
        ensures
            r == self@.is_moving(),
    {
        self.velocity != Vec2::zero()
    }

    /// How long has it been since the pointer was last moved?
    pub fn time_since_last_movement(&self) -> (r: Nanos)
        ensures
            r == elapsed(self@.time, self@.last_move_time),
    {
        elapsed(self.time, self.last_move_time)
    }

    /// How long has it been since the pointer was clicked?
    pub fn time_since_last_click(&self) -> (r: Nanos)
        ensures
            r == elapsed(self@.time, self@.last_click_time),
    {
        elapsed(self.time, self.last_click_time)
    }

    /// Was any pointer button pressed (`!down -> down`) this frame?
    ///
    /// This can sometimes return `true` even if `any_down() == false`
    /// because a press can be shorted than one frame.
    pub fn any_pressed(&self) -> (r: bool)
        ensures
            r == self@.any_pressed(),
    {
        self.went_down
    }

    /// Was any pointer button released (`down -> !down`) this frame?
    pub fn any_released(&self) -> (r: bool)
        ensures
            r == self@.any_released(),
    {
        self.went_up
    }

    /// Was the button given pressed this frame?
    pub fn button_pressed(&self, button: PointerButton) -> (r: bool)
        ensures
            r == self@.any_event(|e: PointerEvent| e.presses(button)),
    {
        self.any_of(Kind::Press(button))
    }

    /// Was the button given released this frame?
    pub fn button_released(&self, button: PointerButton) -> (r: bool)
        ensures
            r == self@.any_event(|e: PointerEvent| e.releases(button)),
    {
        self.any_of(Kind::Release(button))
    }

    /// Was the primary button pressed this frame?
    pub fn primary_pressed(&self) -> (r: bool)
        ensures
            r == self@.any_event(|e: PointerEvent| e.presses(PointerButton::Primary)),
    {
        self.button_pressed(PointerButton::Primary)
    }

    /// Was the secondary button pressed this frame?
    pub fn secondary_pressed(&self) -> (r: bool)
        ensures
            r == self@.any_event(|e: PointerEvent| e.presses(PointerButton::Secondary)),
    {
        self.button_pressed(PointerButton::Secondary)
    }

    /// Was the primary button released this frame?
    pub fn primary_released(&self) -> (r: bool)
        ensures
            r == self@.any_event(|e: PointerEvent| e.releases(PointerButton::Primary)),
    {
        self.button_released(PointerButton::Primary)
    }

    /// Was the secondary button released this frame?
    pub fn secondary_released(&self) -> (r: bool)
        ensures
            r == self@.any_event(|e: PointerEvent| e.releases(PointerButton::Secondary)),
    {
        self.button_released(PointerButton::Secondary)
    }

    /// Is any pointer button currently down?
    pub fn any_down(&self) -> (r: bool)
        ensures
            r == self@.any_down(),
    {
        let mut i: usize = 0;
        while i < 5
            invariant
                i <= 5,
                forall|j: int| 0 <= j < i ==> #[trigger] self@.holds[j] is None,
            decreases 5 - i,
        {
            if self.holds[i].is_some() {
                assert(self@.holds[i as int] is Some);
                return true;
            }
            i += 1;
        }
        false
    }

    /// Were there any type of click this frame?
    pub fn any_click(&self) -> (r: bool)
        ensures
            r == self@.any_click(),
    {
        self.any_of(Kind::AnyClick)
    }

    /// Was the given pointer button given clicked this frame?
    ///
    /// Returns true on double- and triple- clicks too.
    pub fn button_clicked(&self, button: PointerButton) -> (r: bool)
        ensures
            r == self@.any_event(|e: PointerEvent| e.clicks(button)),
    {
        self.any_of(Kind::Click(button))
    }

    /// Was the button given double clicked this frame?
    pub fn button_double_clicked(&self, button: PointerButton) -> (r: bool)
        ensures
            r == self@.any_event(|e: PointerEvent| e.clicks_times(button, 2)),
    {
        self.any_of(Kind::Clicks(button, 2))
    }

    /// Was the button given triple clicked this frame?
    pub fn button_triple_clicked(&self, button: PointerButton) -> (r: bool)
        ensures
            r == self@.any_event(|e: PointerEvent| e.clicks_times(button, 3)),
    {
        self.any_of(Kind::Clicks(button, 3))
    }

    /// Was the primary button clicked this frame?
    pub fn primary_clicked(&self) -> (r: bool)
        ensures
            r == self@.any_event(|e: PointerEvent| e.clicks(PointerButton::Primary)),
    {
        self.button_clicked(PointerButton::Primary)
    }

    /// Was the secondary button clicked this frame?
    pub fn secondary_clicked(&self) -> (r: bool)
        ensures
            r == self@.any_event(|e: PointerEvent| e.clicks(PointerButton::Secondary)),
    {
        self.button_clicked(PointerButton::Secondary)
    }

    /// Is this button currently down?
    pub fn button_down(&self, button: PointerButton) -> (r: bool)
        ensures
            r == self@.button_down(button),
    {
        self.holds[button.index()].is_some()
    }

    /// If the pointer button is down, will it register as a click when released?
    ///
    /// See also [`Self::is_decidedly_dragging`].
    pub fn could_any_button_be_click(&self) -> (r: bool)
        ensures
            r == self@.could_any_button_be_click(),
    {
        if self.has_moved_too_much_for_a_click {
            return false;
        }
        if !self.any_down() {
            return self.went_up;
        }
        let mut i: usize = 0;
        while i < 5
            invariant
                i <= 5,
                self@.any_down(),
                !self@.has_moved_too_much_for_a_click,
                forall|j: int| 0 <= j < i ==> !#[trigger] self@.could_be_click(j),
            decreases 5 - i,
        {
            if let Some(hold) = self.holds[i] {
                if hold.could_be_click(self.time, self.options) {
                    assert(self@.could_be_click(i as int));
                    return true;
                }
            }
            i += 1;
        }
        false
    }

    /// Just because the mouse is down doesn't mean we are dragging.
    /// We could be at the start of a click.
    /// But if the mouse is down long enough, or has moved far enough,
    /// then we consider it a drag.
    ///
    /// This function can return true on the same frame the drag is released,
    /// but NOT on the first frame it was started.
    ///
    /// See also [`Self::could_any_button_be_click`].
    pub fn is_decidedly_dragging(&self) -> (r: bool)
        ensures
            r == self@.is_decidedly_dragging(),
    {
        (self.any_down() || self.any_released()) && !self.any_pressed() && !self.could_any_button_be_click()
            && !self.any_click()
    }

    /// A long press is something we detect on touch screens
    /// to trigger a secondary click (context menu).
    ///
    /// Returns `true` only on one frame.
    pub fn is_long_press(&self) -> (r: bool)
        ensures
            r == self@.is_long_press(),
    {
        let held_still = match self.holds[PointerButton::Primary.index()] {
            Some(hold) => !hold.has_moved_too_much_for_a_click && !hold.was_long_press,
            None => false,
        };
        let held_too_long = match self.press_start_time {
            Some(press_start_time) => elapsed(self.time, press_start_time) > self.options.max_click_duration,
            None => false,
        };
        self.started_decidedly_dragging && !self.has_moved_too_much_for_a_click && held_still && held_too_long
    }

    /// Is the primary button currently down?
    pub fn primary_down(&self) -> (r: bool)
        ensures
            r == self@.button_down(PointerButton::Primary),
    {
        self.button_down(PointerButton::Primary)
    }

    /// Is the secondary button currently down?
    pub fn secondary_down(&self) -> (r: bool)
        ensures
            r == self@.button_down(PointerButton::Secondary),
    {
        self.button_down(PointerButton::Secondary)
    }

    /// Is the middle button currently down?
    pub fn middle_down(&self) -> (r: bool)
        ensures
            r == self@.button_down(PointerButton::Middle),
    {
        self.button_down(PointerButton::Middle)
    }

    /// Is the mouse moving in the direction of the given rect?
    pub fn is_moving_towards_rect(&self, rect: &Rect) -> (r: bool)
        ensures
            r == (self@.is_moving() && self@.direction != Vec2::zero() && (
            self@.latest_pos matches Some(pos) && rect.on_ray(pos, self@.direction))),
    {
        if self.is_still() {
            return false;
        }

        if let Some(pos) = self.hover_pos() {
            let dir = self.direction();
            if dir != Vec2::zero() {
                return rect.intersects_ray(pos, dir);
            }
        }
        false
    }

    /// What an inspector shows of the pointer.
    pub fn ui(&self) -> (r: Vec<Line<'_>>)
        ensures
            self@.is_shown(r@),
    {
        let h = self.holds;
        let down = [h[0].is_some(), h[1].is_some(), h[2].is_some(), h[3].is_some(), h[4].is_some()];
        assert(down@ =~= self@.down());
        let r = vec![
            Line::of("latest_pos: ", Value::Pos(self.latest_pos), ""),
            Line::of("interact_pos: ", Value::Pos(self.interact_pos), ""),
            Line::of("delta: ", Value::Vector(self.delta), ""),
            Line::of("motion: ", Value::Motion(self.motion), ""),
            Line::of("velocity: ", Value::Velocity(self.velocity), " points/sec"),
            Line::of("direction: ", Value::Vector(self.direction), ""),
            Line::of("down: ", Value::Buttons(down), ""),
            Line::of("press_origin: ", Value::Pos(self.press_origin), ""),
            Line::of("press_start_time: ", Value::MaybeTime(self.press_start_time), " s"),
            Line::of("has_moved_too_much_for_a_click: ", Value::Flag(self.has_moved_too_much_for_a_click), ""),
            Line::of("started_decidedly_dragging: ", Value::Flag(self.started_decidedly_dragging), ""),
            Line::of("last_click_time: ", Value::Time(self.last_click_time), ""),
            Line::of("last_last_click_time: ", Value::Time(self.last_last_click_time), ""),
            Line::of("last_move_time: ", Value::Time(self.last_move_time), ""),
            Line::of("pointer_events: ", Value::PointerEvents(&self.pointer_events), ""),
        ];
        r
    }
}

} // verus!
