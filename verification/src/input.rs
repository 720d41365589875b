//! The input state that is updated each frame.

use crate::data::{
    clone_events, Action, ActionRequest, Event, EventFilter, Id, Key, KeyboardShortcut, RawInput, TouchDeviceId,
    ViewportInfo,
};
use crate::devices::TouchDevices;
use crate::event_list;
use crate::fixed::{clamp_wide, Fixed};
use crate::geometry::{Pos2, Rect, SafeArea, Vec2};
use crate::keys::KeySet;
use crate::modifiers::Modifiers;
use crate::options::InputOptions;
use crate::pointer::{PointerModel, PointerState};
use crate::scroll::Scroll;
use crate::time::{elapsed, later, Nanos, INFINITY, NEG_INFINITY};
use crate::touch::{Gesture, MultiTouchInfo, TouchModel};
use crate::ui::{Item, Line, Value};
use vstd::prelude::*;

verus! {

/// The span that a frame is expected to take.
pub const FRAME: Nanos = 16_666_667;

/// The longest span for which scrolling is smoothed in one step.
pub const MAX_SMOOTHING_SPAN: Nanos = 100_000_000;

/// A pending scroll beyond this asks for another frame.
///
/// It is the single-precision float nearest to `0.2`.
pub const REPAINT_THRESHOLD: i64 = 858_993_472;

/// What an [`Internal`] holds, as mathematical values.
#[verifier::ext_equal]
pub struct InternalModel {
    /// The touch devices that have been seen, by their numbers.
    pub touch_states: Map<u64, TouchModel>,
    pub last_scroll_time: Nanos,
    pub unprocessed_scroll_delta: Vec2,
    pub unprocessed_scroll_delta_for_zoom: Fixed,
    pub zoom_factor_delta: Fixed,
    pub screen_rect: Rect,
    pub safe_area: SafeArea,
    pub options: InputOptions,
}

/// What an [`InputState`] keeps to itself.
#[derive(Clone, Debug)]
pub struct Internal {
    /// State of touches, except those covered by `PointerState` (like clicks and drags).
    /// (We keep a separate state for each encountered touch device.)
    touch_states: TouchDevices,

    /// Time of the last scroll event.
    last_scroll_time: Nanos,

    /// Used for smoothing the scroll delta.
    unprocessed_scroll_delta: Vec2,

    /// Used for smoothing the scroll delta when zooming.
    unprocessed_scroll_delta_for_zoom: Fixed,

    /// Zoom scale factor this frame (e.g. from ctrl-scroll or pinch gesture).
    ///
    /// * `zoom = 1`: no change.
    /// * `zoom < 1`: pinch together
    /// * `zoom > 1`: pinch spread
    zoom_factor_delta: Fixed,

    /// Position and size of the interface.
    ///
    /// This is including the safe area.
    screen_rect: Rect,

    /// The safe area insets of the screen.
    safe_area: SafeArea,

    /// Input state management configuration.
    ///
    /// This gets copied from the options of the interface at the start of each frame for convenience.
    options: InputOptions,
}

/// Input state that is updated each frame.
#[derive(Clone, Debug)]
pub struct InputState {
    /// The raw input we got this frame from the backend.
    pub raw: RawInput,

    /// State of the mouse or simple touch gestures which can be mapped to mouse operations.
    pub pointer: PointerState,

    /// You probably want to use [`Self::smooth_scroll_delta`] instead.
    ///
    /// The raw input of how many points the user scrolled.
    ///
    /// The delta dictates how the _content_ should move.
    ///
    /// A positive X-value indicates the content is being moved right,
    /// as when swiping right on a touch-screen or track-pad with natural scrolling.
    ///
    /// A positive Y-value indicates the content is being moved down,
    /// as when swiping down on a touch-screen or track-pad with natural scrolling.
    ///
    /// When using a notched scroll-wheel this will spike very large for one frame,
    /// then drop to zero. For a smoother experience, use [`Self::smooth_scroll_delta`].
    pub raw_scroll_delta: Vec2,

    /// How many points the user scrolled, smoothed over a few frames.
    ///
    /// The delta dictates how the _content_ should move.
    ///
    /// A scroll area will both read and write to this field, so that
    /// at the end of the frame this will be zero if a scroll-area consumed the delta.
    pub smooth_scroll_delta: Vec2,

    /// Also known as device pixel ratio, > 1 for high resolution screens.
    pub pixels_per_point: Fixed,

    /// Maximum size of one side of a texture.
    ///
    /// This depends on the backend.
    pub max_texture_side: usize,

    /// Time. Relative to whatever. Used for animation.
    pub time: Nanos,

    /// Time since last frame.
    ///
    /// This can be very unstable in reactive mode (when we don't paint each frame).
    /// For animations it is therefore better to use [`Self::stable_dt`].
    pub unstable_dt: Nanos,

    /// Estimated time until next frame (provided we repaint right away).
    ///
    /// Used for animations to get instant feedback (avoid frame delay).
    /// Should be set to the expected time between frames when painting at vsync speeds.
    pub predicted_dt: Nanos,

    /// Time since last frame, but gracefully handles the first frame after sleeping in reactive mode.
    ///
    /// If a repaint was requested in the previous frame, then this is `unstable_dt`. If not,
    /// `unstable_dt` is assumed to be too large, and this is `predicted_dt`.
    ///
    /// This means that for the first frame after a sleep,
    /// `stable_dt` will be a prediction of the delta-time until the next frame,
    /// and in all other situations this will be an accurate measurement of time passed
    /// since the previous frame.
    pub stable_dt: Nanos,

    /// The native window has the keyboard focus (i.e. is receiving key presses).
    ///
    /// False when the user alt-tab away from the application, for instance.
    pub focused: bool,

    /// Which modifier keys are down at the start of the frame?
    pub modifiers: Modifiers,

    /// The keys that are currently being held down.
    pub keys_down: KeySet,

    /// In-order events received this frame
    pub events: Vec<Event>,

    /// What only the state itself reads and writes.
    pub internal: Internal,
}

impl View for Internal {
    type V = InternalModel;

    closed spec fn view(&self) -> InternalModel {
        InternalModel {
            touch_states: self.touch_states@,
            last_scroll_time: self.last_scroll_time,
            unprocessed_scroll_delta: self.unprocessed_scroll_delta,
            unprocessed_scroll_delta_for_zoom: self.unprocessed_scroll_delta_for_zoom,
            zoom_factor_delta: self.zoom_factor_delta,
            screen_rect: self.screen_rect,
            safe_area: self.safe_area,
            options: self.options,
        }
    }
}

/// The time of a frame.
pub open spec fn frame_time(before: Nanos, new: RawInput) -> Nanos {
    match new.time {
        Some(time) => time,
        None => later(before, new.predicted_dt),
    }
}

/// The time that the frame took, if that can be trusted, and else what it was expected to take.
pub open spec fn frame_span(before: Nanos, new: RawInput, requested_immediate_repaint: bool) -> Nanos {
    if requested_immediate_repaint {
        elapsed(frame_time(before, new), before)
    } else {
        new.predicted_dt
    }
}

/// The span for which scrolling is smoothed.
pub open spec fn smoothing_span(span: Nanos) -> Nanos {
    if span < MAX_SMOOTHING_SPAN {
        span
    } else {
        MAX_SMOOTHING_SPAN
    }
}

impl InputState {
    /// The area of the interface in a frame.
    pub open spec fn new_screen_rect(self, new: RawInput) -> Rect {
        match new.screen_rect {
            Some(rect) => rect,
            None => self.internal@.screen_rect,
        }
    }

    /// What the wheel does in a frame of which `t` is the smoothing factor.
    pub open spec fn new_scroll(self, new: RawInput, options: InputOptions, t: Fixed) -> Scroll {
        Scroll::start(self.internal@.unprocessed_scroll_delta, self.internal@.unprocessed_scroll_delta_for_zoom).after_events(
            new.events@,
            options,
            self.new_screen_rect(new),
        ).smoothed(t)
    }

    /// The number of which the exponential is the factor that scrolling zooms by in a frame.
    pub open spec fn zoom_exponent(self, new: RawInput, options: InputOptions, t: Fixed) -> Fixed {
        options.scroll_zoom_speed.times(self.new_scroll(new, options, t).smooth_scroll_delta_for_zoom)
    }

    /// Whether `after` is the state after a frame, but for the factor that scrolling zooms by.
    pub open spec fn is_pass(
        self,
        new: RawInput,
        requested_immediate_repaint: bool,
        pixels_per_point: Fixed,
        options: InputOptions,
        gestures: Seq<Gesture>,
        t: Fixed,
        after: InputState,
    ) -> bool {
        let time = frame_time(self.time, new);
        let scroll = self.new_scroll(new, options, t);
        let is_scrolling = scroll.raw_scroll_delta != Vec2::zero() || scroll.smooth_scroll_delta != Vec2::zero();
        &&& after.raw.same_but_events(new)
        &&& after.raw.events@ == event_list::all_marked(new.events@, self.keys_down@)
        &&& after.events@ == event_list::all_marked(new.events@, self.keys_down@)
        &&& after.keys_down@ == event_list::keys_after_events(self.keys_down@, new.events@)
        &&& after.pointer@ == self.pointer@.after_pass(time, new.events@, options)
        &&& after.raw_scroll_delta == scroll.raw_scroll_delta
        &&& after.smooth_scroll_delta == scroll.smooth_scroll_delta
        &&& after.pixels_per_point == pixels_per_point
        &&& after.max_texture_side == match new.max_texture_side {
            Some(side) => side,
            None => self.max_texture_side,
        }
        &&& after.time == time
        &&& after.unstable_dt == elapsed(time, self.time)
        &&& after.predicted_dt == new.predicted_dt
        &&& after.stable_dt == frame_span(self.time, new, requested_immediate_repaint)
        &&& after.focused == new.focused
        &&& after.modifiers == new.modifiers
        &&& after.internal@ == InternalModel {
            touch_states: crate::devices::after_pass(
                crate::devices::with_new_devices(self.internal@.touch_states, new.events@),
                new.events@,
                gestures,
            ),
            last_scroll_time: if is_scrolling {
                time
            } else {
                self.internal@.last_scroll_time
            },
            unprocessed_scroll_delta: scroll.unprocessed_scroll_delta,
            unprocessed_scroll_delta_for_zoom: scroll.unprocessed_scroll_delta_for_zoom,
            zoom_factor_delta: scroll.zoom_factor_delta,
            screen_rect: self.new_screen_rect(new),
            safe_area: match new.safe_area {
                Some(safe_area) => safe_area,
                None => self.internal@.safe_area,
            },
            options,
        }
    }

    /// Whether `after` is `self`, zoomed by a further factor.
    pub open spec fn is_zoomed(self, factor: Fixed, after: InputState) -> bool {
        &&& after.raw == self.raw
        &&& after.events == self.events
        &&& after.keys_down == self.keys_down
        &&& after.pointer == self.pointer
        &&& after.raw_scroll_delta == self.raw_scroll_delta
        &&& after.smooth_scroll_delta == self.smooth_scroll_delta
        &&& after.pixels_per_point == self.pixels_per_point
        &&& after.max_texture_side == self.max_texture_side
        &&& after.time == self.time
        &&& after.unstable_dt == self.unstable_dt
        &&& after.predicted_dt == self.predicted_dt
        &&& after.stable_dt == self.stable_dt
        &&& after.focused == self.focused
        &&& after.modifiers == self.modifiers
        &&& after.internal@ == (InternalModel { zoom_factor_delta: self.internal@.zoom_factor_delta.times(factor), ..self.internal@ })
    }

    /// Takes in the input of a frame.
    ///
    /// `gestures` are the multi-touch gestures that were recognised in it. `smoothing_factor`
    /// says what fraction of a pending scroll is carried out in the given span, and
    /// `exponential` raises the base of the natural logarithm to the given power.
    #[must_use]
    pub fn begin_pass<S: FnOnce(Nanos) -> Fixed, E: FnOnce(Fixed) -> Fixed>(
        self,
        new: RawInput,
        requested_immediate_repaint_prev_frame: bool,
        pixels_per_point: Fixed,
        options: InputOptions,
        gestures: &Vec<Gesture>,
        smoothing_factor: S,
        exponential: E,
    ) -> (r: Self)
        requires
            forall|span: Nanos| smoothing_factor.requires((span,)),
            forall|power: Fixed| exponential.requires((power,)),
        ensures
            exists|t: Fixed, factor: Fixed, passed: InputState|
                {
                    &&& smoothing_factor.ensures(
                        (smoothing_span(frame_span(self.time, new, requested_immediate_repaint_prev_frame)),),
                        t,
                    )
                    &&& #[trigger] self.is_pass(
                        new,
                        requested_immediate_repaint_prev_frame,
                        pixels_per_point,
                        options,
                        gestures@,
                        t,
                        passed,
                    )
                    &&& exponential.ensures((self.zoom_exponent(new, options, t),), factor)
                    &&& #[trigger] passed.is_zoomed(factor, r)
                },
    {
        let span: Nanos = self.stable_span(&new, requested_immediate_repaint_prev_frame);
        let t = smoothing_factor(if span < MAX_SMOOTHING_SPAN { span } else { MAX_SMOOTHING_SPAN });
        let (passed, power) = self.begin_pass_smoothed(
            new,
            requested_immediate_repaint_prev_frame,
            pixels_per_point,
            options,
            gestures,
            t,
        );
        let factor = exponential(power);
        let r = passed.zoomed(factor);
        assert(passed.is_zoomed(factor, r));
        r
    }

    /// The time that the frame took, if that can be trusted, and else what it was expected to take.
    fn stable_span(&self, new: &RawInput, requested_immediate_repaint: bool) -> (r: Nanos)
        ensures
            r == frame_span(self.time, *new, requested_immediate_repaint),
    {
        if requested_immediate_repaint {
            // we should have had a repaint straight away,
            // so this should be trustable.
            elapsed(self.new_time(new), self.time)
        } else {
            new.predicted_dt
        }
    }

    /// The time of a frame.
    fn new_time(&self, new: &RawInput) -> (r: Nanos)
        ensures
            r == frame_time(self.time, *new),
    {
        match new.time {
            Some(time) => time,
            None => later(self.time, new.predicted_dt),
        }
    }

    /// Takes in the input of a frame of which `t` is the smoothing factor, but for the
    /// factor that scrolling zooms by. Returns the power whose exponential that factor is.
    #[must_use]
    pub fn begin_pass_smoothed(
        self,
        new: RawInput,
        requested_immediate_repaint_prev_frame: bool,
        pixels_per_point: Fixed,
        options: InputOptions,
        gestures: &Vec<Gesture>,
        t: Fixed,
    ) -> (r: (Self, Fixed))
        ensures
            self.is_pass(
                new,
                requested_immediate_repaint_prev_frame,
                pixels_per_point,
                options,
                gestures@,
                t,
                r.0,
            ),
            r.1 == self.zoom_exponent(new, options, t),
    {
        let time: Nanos = self.new_time(&new);
        let unstable_dt: Nanos = elapsed(time, self.time);
        let stable_dt: Nanos = self.stable_span(&new, requested_immediate_repaint_prev_frame);

        let safe_area = match new.safe_area {
            Some(safe_area) => safe_area,
            None => self.internal.safe_area,
        };
        let screen_rect = match new.screen_rect {
            Some(screen_rect) => screen_rect,
            None => self.internal.screen_rect,
        };
        let max_texture_side: usize = match new.max_texture_side {
            Some(side) => side,
            None => self.max_texture_side,
        };

        let mut before = self;
        before.create_touch_states_for_new_devices(&new.events);
        let mut touch_states = before.internal.touch_states;
        touch_states.begin_pass(&new.events, gestures);
        let pointer = before.pointer.begin_pass(time, &new, options);

        let scroll = Scroll::start(
            before.internal.unprocessed_scroll_delta,
            before.internal.unprocessed_scroll_delta_for_zoom,
        ).on_events(&new.events, options, screen_rect).smoothed(t);

        let mut new = new;
        let mut keys_down = before.keys_down;
        event_list::follow_keys(&mut keys_down, &mut new.events);

        let is_scrolling = scroll.raw_scroll_delta != Vec2::zero() || scroll.smooth_scroll_delta != Vec2::zero();
        let last_scroll_time: Nanos = if is_scrolling {
            time
        } else {
            before.internal.last_scroll_time
        };

        let power = options.scroll_zoom_speed.times(scroll.smooth_scroll_delta_for_zoom);
        let after = InputState {
            pointer,
            raw_scroll_delta: scroll.raw_scroll_delta,
            smooth_scroll_delta: scroll.smooth_scroll_delta,
            pixels_per_point,
            max_texture_side,
            time,
            unstable_dt,
            predicted_dt: new.predicted_dt,
            stable_dt,
            focused: new.focused,
            modifiers: new.modifiers,
            keys_down,
            events: clone_events(&new.events),
            raw: new,
            internal: Internal {
                touch_states,
                last_scroll_time,
                unprocessed_scroll_delta: scroll.unprocessed_scroll_delta,
                unprocessed_scroll_delta_for_zoom: scroll.unprocessed_scroll_delta_for_zoom,
                zoom_factor_delta: scroll.zoom_factor_delta,
                screen_rect,
                safe_area,
                options,
            },
        };
        (after, power)
    }

    /// Zooms by a further factor in this frame.
    #[must_use]
    pub fn zoomed(self, factor: Fixed) -> (r: Self)
        ensures
            self.is_zoomed(factor, r),
    {
        let mut after = self;
        after.internal.zoom_factor_delta = after.internal.zoom_factor_delta.times(factor);
        after
    }

    /// Scans `events` for device IDs of touch devices we have not seen before,
    /// and creates a new state for each such device.
    fn create_touch_states_for_new_devices(&mut self, events: &Vec<Event>)
        ensures
            *final(self) == (InputState { internal: final(self).internal, ..*old(self) }),
            final(self).internal@ == (InternalModel {
                touch_states: crate::devices::with_new_devices(old(self).internal@.touch_states, events@),
                ..old(self).internal@
            }),
    {
        self.internal.touch_states.add_new(events);
    }
}

impl InternalModel {
    /// Nothing has been scrolled or touched.
    pub open spec fn initial(is_web: bool) -> InternalModel {
        let zero = Fixed { raw: 0 };
        let side = Fixed::from_int(10_000);
        InternalModel {
            touch_states: Map::empty(),
            last_scroll_time: NEG_INFINITY,
            unprocessed_scroll_delta: Vec2::zero(),
            unprocessed_scroll_delta_for_zoom: zero,
            zoom_factor_delta: Fixed::from_int(1),
            screen_rect: Rect { min: Pos2 { x: zero, y: zero }, max: Pos2 { x: side, y: side } },
            safe_area: SafeArea { left: zero, right: zero, top: zero, bottom: zero },
            options: InputOptions::for_platform(is_web),
        }
    }

    /// Whether so much scrolling is pending that another frame is wanted.
    pub open spec fn scroll_wants_repaint(self) -> bool {
        ||| !at_most(self.unprocessed_scroll_delta.x, REPAINT_THRESHOLD)
        ||| !at_most(self.unprocessed_scroll_delta.y, REPAINT_THRESHOLD)
        ||| !at_most(self.unprocessed_scroll_delta_for_zoom, REPAINT_THRESHOLD)
    }
}

/// Whether the magnitude of a number is at most so many units.
pub open spec fn at_most(n: Fixed, bound: i64) -> bool {
    -bound <= n.raw <= bound
}

/// Whether the magnitude of a number is at most so many units.
fn is_at_most(n: Fixed, bound: i64) -> (r: bool)
    requires
        bound >= 0,
    ensures
        r == at_most(n, bound),
{
    -bound <= n.raw && n.raw <= bound
}

impl InputState {
    /// Whether nothing has happened to the state yet.
    pub open spec fn is_initial(self, is_web: bool) -> bool {
        &&& self.raw.events@ == Seq::<Event>::empty()
        &&& self.raw.viewport_id == 0
        &&& self.raw.viewports@ == Map::<u64, ViewportInfo>::empty().insert(0, ViewportInfo::nothing_known())
        &&& self.raw.screen_rect is None
        &&& self.raw.safe_area is None
        &&& self.raw.max_texture_side is None
        &&& self.raw.time is None
        &&& self.raw.predicted_dt == FRAME
        &&& self.raw.modifiers == Modifiers::none()
        &&& self.raw.focused
        &&& self.pointer@ == PointerModel::initial(is_web)
        &&& self.raw_scroll_delta == Vec2::zero()
        &&& self.smooth_scroll_delta == Vec2::zero()
        &&& self.pixels_per_point == Fixed::from_int(1)
        &&& self.max_texture_side == 2048
        &&& self.time == 0
        &&& self.unstable_dt == FRAME
        &&& self.predicted_dt == FRAME
        &&& self.stable_dt == FRAME
        &&& !self.focused
        &&& self.modifiers == Modifiers::none()
        &&& self.keys_down@ == Set::<Key>::empty()
        &&& self.events@ == Seq::<Event>::empty()
        &&& self.internal@ == InternalModel::initial(is_web)
    }
}

impl Default for InputState {
    fn default() -> (r: Self)
        ensures
            r.is_initial(false),
    {
        InputState::for_platform(false)
    }
}

impl InputState {
    /// A state to which nothing has happened, with the default options.
    pub fn for_platform(is_web: bool) -> (r: Self)
        ensures
            r.is_initial(is_web),
    {
        let zero = Fixed { raw: 0 };
        let side = Fixed::from_int(10_000);
        InputState {
            raw: RawInput::default(),
            pointer: PointerState::for_platform(is_web),
            raw_scroll_delta: Vec2::zero(),
            smooth_scroll_delta: Vec2::zero(),
            pixels_per_point: Fixed::from_int(1),
            max_texture_side: 2048,
            time: 0,
            unstable_dt: FRAME,
            predicted_dt: FRAME,
            stable_dt: FRAME,
            focused: false,
            modifiers: Modifiers::none(),
            keys_down: KeySet::new(),
            events: Vec::new(),
            internal: Internal {
                touch_states: TouchDevices::new(),
                last_scroll_time: NEG_INFINITY,
                unprocessed_scroll_delta: Vec2::zero(),
                unprocessed_scroll_delta_for_zoom: zero,
                zoom_factor_delta: Fixed::from_int(1),
                screen_rect: Rect { min: Pos2 { x: zero, y: zero }, max: Pos2 { x: side, y: side } },
                safe_area: SafeArea::default(),
                options: InputOptions::for_platform(is_web),
            },
        }
    }
}

impl InputState {
    /// Info about the active viewport
    pub fn viewport(&self) -> (r: &ViewportInfo)
        requires
            self.raw.viewports@.contains_key(self.raw.viewport_id),
        ensures
            *r == self.raw.viewports@[self.raw.viewport_id],
    {
        self.raw.viewport()
    }

    /// Which part of the screen does the interface cover?
    ///
    /// Returns the `RawInput::screen_rect` - [`Self::safe_area`].
    /// To get the full `screen_rect`, use [`Self::screen_rect_including_unsafe_area`]
    pub fn screen_rect(&self) -> (r: Rect)
        ensures
            r == self.internal@.screen_rect.shrunk(self.internal@.safe_area),
    {
        self.internal.screen_rect.shrunk(self.internal.safe_area)
    }

    /// Returns the full area available to the interface, including parts that might be partially
    /// covered, for example, by the OS status bar or notches.
    ///
    /// Usually you want to use [`Self::screen_rect`] instead.
    pub fn screen_rect_including_unsafe_area(&self) -> (r: Rect)
        ensures
            r == self.internal@.screen_rect,
    {
        self.internal.screen_rect
    }

    /// Get the safe area insets.
    pub fn safe_area(&self) -> (r: SafeArea)
        ensures
            r == self.internal@.safe_area,
    {
        self.internal.safe_area
    }

    /// The zoom of the multi-touch gesture, if there is one, and else that of the frame.
    pub open spec fn shown_zoom(self) -> Fixed {
        match crate::devices::multi_touch(self.internal@.touch_states) {
            Some(touch) => touch.zoom_delta,
            None => self.internal@.zoom_factor_delta,
        }
    }

    /// The zoom on each axis of the multi-touch gesture, if there is one, and else that of the
    /// frame, along the one axis that the modifiers leave, if they do.
    pub open spec fn shown_zoom_2d(self) -> Vec2 {
        match crate::devices::multi_touch(self.internal@.touch_states) {
            Some(touch) => touch.zoom_delta_2d,
            None => {
                let zoom = self.internal@.zoom_factor_delta;
                let one = Fixed::from_int(1);
                if crate::scroll::only_horizontal(self.modifiers, self.internal@.options) {
                    Vec2 { x: zoom, y: one }
                } else if crate::scroll::only_vertical(self.modifiers, self.internal@.options) {
                    Vec2 { x: one, y: zoom }
                } else {
                    Vec2::splat(zoom)
                }
            },
        }
    }

    /// Uniform zoom scale factor this frame (e.g. from ctrl-scroll or pinch gesture).
    /// * `zoom = 1`: no change
    /// * `zoom < 1`: pinch together
    /// * `zoom > 1`: pinch spread
    ///
    /// If your application supports non-proportional zooming,
    /// then you probably want to use [`Self::zoom_delta_2d`] instead.
    pub fn zoom_delta(&self) -> (r: Fixed)
        ensures
            r == self.shown_zoom(),
    {
        // If a multi touch gesture is detected, it measures the exact and linear proportions of
        // the distances of the finger tips. It is therefore potentially more accurate than
        // `zoom_factor_delta` which is based on the `ctrl-scroll` event which, in turn, may be
        // synthesized from an original touch gesture.
        match self.multi_touch() {
            Some(touch) => touch.zoom_delta,
            None => self.internal.zoom_factor_delta,
        }
    }

    /// 2D non-proportional zoom scale factor this frame (e.g. from ctrl-scroll or pinch gesture).
    ///
    /// For multitouch devices the user can do a horizontal or vertical pinch gesture.
    /// In these cases a non-proportional zoom factor is a available.
    /// In other cases, this reverts to `Vec2::splat(self.zoom_delta())`.
    ///
    /// For horizontal pinches, this will return `[z, 1]`,
    /// for vertical pinches this will return `[1, z]`,
    /// and otherwise this will return `[z, z]`,
    /// where `z` is the zoom factor:
    /// * `zoom = 1`: no change
    /// * `zoom < 1`: pinch together
    /// * `zoom > 1`: pinch spread
    pub fn zoom_delta_2d(&self) -> (r: Vec2)
        ensures
            r == self.shown_zoom_2d(),
    {
        // If a multi touch gesture is detected, it measures the exact and linear proportions of
        // the distances of the finger tips.  It is therefore potentially more accurate than
        // `zoom_factor_delta` which is based on the `ctrl-scroll` event which, in turn, may be
        // synthesized from an original touch gesture.
        match self.multi_touch() {
            Some(touch) => touch.zoom_delta_2d,
            None => {
                let mut zoom = Vec2::splat(self.internal.zoom_factor_delta);

                let is_horizontal = self.modifiers.matches_any(self.internal.options.horizontal_scroll_modifier);
                let is_vertical = self.modifiers.matches_any(self.internal.options.vertical_scroll_modifier);

                if is_horizontal && !is_vertical {
                    // Horizontal-only zooming.
                    zoom.y = Fixed::from_int(1);
                }
                if !is_horizontal && is_vertical {
                    // Vertical-only zooming.
                    zoom.x = Fixed::from_int(1);
                }

                zoom
            },
        }
    }

    /// How long has it been since the use last scrolled?
    pub fn time_since_last_scroll(&self) -> (r: Nanos)
        ensures
            r == elapsed(self.time, self.internal@.last_scroll_time),
    {
        elapsed(self.time, self.internal.last_scroll_time)
    }

    /// How long to wait for a repaint, if one is needed. To be called at the beginning of each frame.
    ///
    /// NOTE: It's important to call this immediately after [`Self::begin_pass`] since calls to
    /// [`Self::consume_key`] will remove events from the vec, meaning those key presses wouldn't
    /// cause a repaint.
    pub fn wants_repaint_after(&self) -> (r: Option<Nanos>)
        ensures
            r == self.repaint_wait(),
    {
        if self.pointer.wants_repaint() || !is_at_most(self.internal.unprocessed_scroll_delta.x, REPAINT_THRESHOLD)
            || !is_at_most(self.internal.unprocessed_scroll_delta.y, REPAINT_THRESHOLD) || !is_at_most(
            self.internal.unprocessed_scroll_delta_for_zoom,
            REPAINT_THRESHOLD,
        ) || !self.events.is_empty() {
            // Immediate repaint
            return Some(0);
        }
        if self.any_touches() && !self.pointer.is_decidedly_dragging() {
            // We need to wake up and check for press-and-hold for the context menu.
            if let Some(press_start_time) = self.pointer.press_start_time() {
                let press_duration: Nanos = elapsed(self.time, press_start_time);
                let limit: Nanos = self.internal.options.max_click_duration;
                if limit != INFINITY && press_duration < limit {
                    return Some(clamp_wide(limit as i128 - press_duration as i128));
                }
            }
        }
        None
    }

    /// How long to wait for a repaint, if one is needed.
    pub open spec fn repaint_wait(self) -> Option<Nanos> {
        let limit = self.internal@.options.max_click_duration;
        if self.pointer@.pointer_events.len() > 0 || self.pointer@.delta != Vec2::zero()
            || self.internal@.scroll_wants_repaint() || self.events@.len() > 0 {
            Some(0)
        } else if crate::devices::any_touches(self.internal@.touch_states) && !self.pointer@.is_decidedly_dragging() {
            match self.pointer@.press_start_time {
                Some(start) if limit != INFINITY && elapsed(self.time, start) < limit => Some(
                    crate::fixed::clamp(limit - elapsed(self.time, start)),
                ),
                _ => None,
            }
        } else {
            None
        }
    }

    /// Count presses of a key. If non-zero, the presses are consumed, so that this will only return non-zero once.
    ///
    /// Includes key-repeat events.
    ///
    /// This uses [`Modifiers::matches_logically`] to match modifiers,
    /// meaning extra Shift and Alt modifiers are ignored.
    /// Therefore, you should match most specific shortcuts first,
    /// i.e. check for `Cmd-Shift-S` ("Save as…") before `Cmd-S` ("Save"),
    /// so that a user pressing `Cmd-Shift-S` won't trigger the wrong command!
    pub fn count_and_consume_key(&mut self, modifiers: Modifiers, logical_key: Key) -> (r: usize)
        ensures
            r == event_list::shortcuts(old(self).events@, modifiers, logical_key).len(),
            final(self).events@ == event_list::without_shortcuts(old(self).events@, modifiers, logical_key),
            *final(self) == (InputState { events: final(self).events, ..*old(self) }),
    {
        event_list::remove_shortcuts(&mut self.events, modifiers, logical_key)
    }

    /// Check for a key press. If found, `true` is returned and the key pressed is consumed, so that this will only return `true` once.
    ///
    /// Includes key-repeat events.
    ///
    /// This uses [`Modifiers::matches_logically`] to match modifiers,
    /// meaning extra Shift and Alt modifiers are ignored.
    /// Therefore, you should match most specific shortcuts first,
    /// i.e. check for `Cmd-Shift-S` ("Save as…") before `Cmd-S` ("Save"),
    /// so that a user pressing `Cmd-Shift-S` won't trigger the wrong command!
    pub fn consume_key(&mut self, modifiers: Modifiers, logical_key: Key) -> (r: bool)
        ensures
            r == (event_list::shortcuts(old(self).events@, modifiers, logical_key).len() > 0),
            final(self).events@ == event_list::without_shortcuts(old(self).events@, modifiers, logical_key),
            *final(self) == (InputState { events: final(self).events, ..*old(self) }),
    {
        self.count_and_consume_key(modifiers, logical_key) > 0
    }

    /// Check if the given shortcut has been pressed.
    ///
    /// If so, `true` is returned and the key pressed is consumed, so that this will only return `true` once.
    ///
    /// This uses [`Modifiers::matches_logically`] to match modifiers,
    /// meaning extra Shift and Alt modifiers are ignored.
    /// Therefore, you should match most specific shortcuts first,
    /// i.e. check for `Cmd-Shift-S` ("Save as…") before `Cmd-S` ("Save"),
    /// so that a user pressing `Cmd-Shift-S` won't trigger the wrong command!
    pub fn consume_shortcut(&mut self, shortcut: &KeyboardShortcut) -> (r: bool)
        ensures
            r == (event_list::shortcuts(old(self).events@, shortcut.modifiers, shortcut.logical_key).len() > 0),
            final(self).events@ == event_list::without_shortcuts(
                old(self).events@,
                shortcut.modifiers,
                shortcut.logical_key,
            ),
            *final(self) == (InputState { events: final(self).events, ..*old(self) }),
    {
        self.consume_key(shortcut.modifiers, shortcut.logical_key)
    }

    /// Was the given key pressed this frame?
    ///
    /// Includes key-repeat events.
    pub fn key_pressed(&self, desired_key: Key) -> (r: bool)
        ensures
            r == (event_list::presses(self.events@, desired_key).len() > 0),
    {
        self.num_presses(desired_key) > 0
    }

    /// How many times was the given key pressed this frame?
    ///
    /// Includes key-repeat events.
    pub fn num_presses(&self, desired_key: Key) -> (r: usize)
        ensures
            r == event_list::presses(self.events@, desired_key).len(),
    {
        event_list::count_presses(&self.events, desired_key)
    }

    /// Is the given key currently held down?
    pub fn key_down(&self, desired_key: Key) -> (r: bool)
        ensures
            r == self.keys_down@.contains(desired_key),
    {
        self.keys_down.contains(desired_key)
    }

    /// Was the given key released this frame?
    pub fn key_released(&self, desired_key: Key) -> (r: bool)
        ensures
            r == exists|i: int|
                0 <= i < self.events@.len() && event_list::is_release(#[trigger] self.events@[i], desired_key),
    {
        event_list::any_release(&self.events, desired_key)
    }

    /// Also known as device pixel ratio, > 1 for high resolution screens.
    pub fn pixels_per_point(&self) -> (r: Fixed)
        ensures
            r == self.pixels_per_point,
    {
        self.pixels_per_point
    }

    /// Size of a physical pixel in logical gui coordinates (points).
    pub fn physical_pixel_size(&self) -> (r: Fixed)
        ensures
            r == Fixed::from_int(1).over(self.pixels_per_point),
    {
        Fixed::from_int(1).over(self.pixels_per_point())
    }

    /// How imprecise do we expect the mouse/touch input to be?
    /// Returns imprecision in points.
    pub fn aim_radius(&self) -> (r: Fixed)
        ensures
            r == Fixed::from_int(1).over(self.pixels_per_point),
    {
        self.physical_pixel_size()
    }

    /// Returns details about the currently ongoing multi-touch gesture, if any. Note that this
    /// method returns `None` for single-touch gestures (click, drag, …).
    ///
    /// By far not all touch devices are supported, and the details depend on the
    /// integration backend you are using. The backend has to be able to
    /// capture native touch events, but many browsers seem to pass such events only for touch
    /// _screens_, but not touch _pads._
    ///
    /// Refer to [`MultiTouchInfo`] for details about the touch information available.
    ///
    /// Consider using `zoom_delta()` instead of `MultiTouchInfo::zoom_delta` as the former
    /// delivers a synthetic zoom factor based on ctrl-scroll events, as a fallback.
    pub fn multi_touch(&self) -> (r: Option<MultiTouchInfo>)
        ensures
            crate::devices::first_gesture(self.internal@.touch_states, r),
            r == crate::devices::multi_touch(self.internal@.touch_states),
    {
        // In case of multiple touch devices simply pick the touch_state of the first active device
        self.internal.touch_states.multi_touch()
    }

    /// True if there currently are any fingers touching the interface.
    pub fn any_touches(&self) -> (r: bool)
        ensures
            r == crate::devices::any_touches(self.internal@.touch_states),
    {
        self.internal.touch_states.any_touches()
    }

    /// True if we have ever received a touch event.
    pub fn has_touch_screen(&self) -> (r: bool)
        ensures
            r == (self.internal@.touch_states != Map::<u64, TouchModel>::empty()),
    {
        !self.internal.touch_states.is_empty()
    }

    /// The requests of an assistive technology that the widget perform the action, in order.
    pub fn accesskit_action_requests(&self, id: Id, action: Action) -> (r: Vec<ActionRequest>)
        ensures
            r@ == event_list::requests(self.events@, id, action),
    {
        event_list::list_requests(&self.events, id, action)
    }

    /// Takes those requests to the widget out of the events that `consume` answers with `true`.
    pub fn consume_accesskit_action_requests<F: FnMut(&ActionRequest) -> bool>(&mut self, id: Id, consume: F)
        requires
            forall|request: ActionRequest| consume.requires((&request,)),
        ensures
            exists|answers: Seq<bool>| #[trigger]
                event_list::answers_to(consume, event_list::all_requests(old(self).events@, id), answers)
                    && final(self).events@ == event_list::without_answered(old(self).events@, id, answers),
            *final(self) == (InputState { events: final(self).events, ..*old(self) }),
    {
        event_list::remove_requests(&mut self.events, id, consume);
    }

    /// Takes those requests to the widget out of the events that are answered with `true`. There is
    /// an answer to each request to the widget, in order; a request without one is left.
    pub fn consume_answered_requests(&mut self, id: Id, answers: &Vec<bool>)
        ensures
            final(self).events@ == event_list::without_answered(old(self).events@, id, answers@),
            *final(self) == (InputState { events: final(self).events, ..*old(self) }),
    {
        event_list::remove_answered(&mut self.events, id, answers);
    }

    /// Whether an assistive technology asks the widget to perform the action.
    pub fn has_accesskit_action_request(&self, id: Id, action: Action) -> (r: bool)
        ensures
            r == (event_list::requests(self.events@, id, action).len() > 0),
    {
        self.accesskit_action_requests(id, action).len() > 0
    }

    /// How often an assistive technology asks the widget to perform the action.
    pub fn num_accesskit_action_requests(&self, id: Id, action: Action) -> (r: usize)
        ensures
            r == event_list::requests(self.events@, id, action).len(),
    {
        self.accesskit_action_requests(id, action).len()
    }

    /// Get all events that matches the given filter.
    pub fn filtered_events(&self, filter: &EventFilter) -> (r: Vec<Event>)
        ensures
            r@ == event_list::filtered(self.events@, *filter),
    {
        event_list::filter_events(&self.events, *filter)
    }

    /// A long press is something we detect on touch screens
    /// to trigger a secondary click (context menu).
    ///
    /// Returns `true` only on one frame.
    pub fn is_long_touch(&self) -> (r: bool)
        ensures
            r == (crate::devices::any_touches(self.internal@.touch_states) && self.pointer@.is_long_press()),
    {
        self.any_touches() && self.pointer.is_long_press()
    }

    /// The sections at the head of the inspector.
    pub open spec fn inspector_head(self) -> Seq<Item<'static>> {
        seq![
            Item::Monospace,
            Item::RawInput { title: "Raw Input", raw: &self.raw },
            Item::Pointer { title: "🖱 Pointer", pointer: &self.pointer },
        ]
    }

    /// Whether the item is the section on a touch device.
    pub open spec fn is_inspector_device(self, item: Item<'_>, id: u64) -> bool {
        item matches Item::Touch { title: "Touch State", device_id, touch } && device_id.value == id && touch@
            == self.internal@.touch_states[id]
    }

    /// The lines on scrolling; those that show what is pending are for debugging.
    pub open spec fn inspector_scroll(self, debugging: bool) -> Seq<Item<'static>> {
        let since = Item::Line(
            Line::of(
                "Time since last scroll: ",
                Value::Seconds(elapsed(self.time, self.internal@.last_scroll_time)),
                " s",
            ),
        );
        if debugging {
            seq![
                since,
                Item::Line(
                    Line::of(
                        "unprocessed_scroll_delta: ",
                        Value::Vector(self.internal@.unprocessed_scroll_delta),
                        " points",
                    ),
                ),
                Item::Line(
                    Line::of(
                        "unprocessed_scroll_delta_for_zoom: ",
                        Value::Number(self.internal@.unprocessed_scroll_delta_for_zoom),
                        " points",
                    ),
                ),
            ]
        } else {
            seq![since]
        }
    }

    /// The other lines of the inspector.
    pub open spec fn inspector_tail(self) -> Seq<Item<'static>> {
        seq![
            Item::Line(Line::of("raw_scroll_delta: ", Value::Vector(self.raw_scroll_delta), " points")),
            Item::Line(Line::of("smooth_scroll_delta: ", Value::Vector(self.smooth_scroll_delta), " points")),
            Item::Line(Line::of("zoom_factor_delta: ", Value::Factor(self.internal@.zoom_factor_delta), "x")),
            Item::Line(Line::of("screen_rect: ", Value::Area(self.internal@.screen_rect), " points")),
            Item::Line(Line::of("safe_area: ", Value::Insets(self.internal@.safe_area), " points")),
            Item::Line(
                Line::of("", Value::Ratio(self.pixels_per_point), " physical pixels for each logical point"),
            ),
            Item::Line(Line::of("max texture size (on each side): ", Value::Count(self.max_texture_side), "")),
            Item::Line(Line::of("time: ", Value::Clock(self.time), " s")),
            Item::Line(Line::of("time since previous frame: ", Value::Millis(self.unstable_dt), " ms")),
            Item::Line(Line::of("predicted_dt: ", Value::Millis(self.predicted_dt), " ms")),
            Item::Line(Line::of("stable_dt:    ", Value::Millis(self.stable_dt), " ms")),
            Item::Line(Line::of("focused:   ", Value::Flag(self.focused), "")),
            Item::Line(Line::of("modifiers: ", Value::Modifiers(self.modifiers), "")),
            Item::Line(Line::of("keys_down: ", Value::Keys(&self.keys_down), "")),
            Item::Tall {
                line: Line {
                    label: "events: ",
                    value: Value::Events(&self.events),
                    unit: "",
                    hover: "key presses etc",
                },
                min_height: Fixed::from_int(150),
            },
        ]
    }

    /// Whether the items are what an inspector shows, with a section on each of the touch devices.
    pub open spec fn is_inspector(self, debugging: bool, ids: Seq<u64>, items: Seq<Item<'_>>) -> bool {
        let head = self.inspector_head();
        let n = (head.len() + ids.len()) as int;
        &&& crate::devices::lists(self.internal@.touch_states, ids)
        &&& items.len() >= n
        &&& items.take(head.len() as int) == head
        &&& forall|i: int|
            0 <= i < ids.len() ==> self.is_inspector_device(#[trigger] items[head.len() + i], ids[i])
        &&& items.skip(n) == self.inspector_scroll(debugging) + self.inspector_tail()
    }

    /// What an inspector shows of the input. Some of it is for debugging.
    pub fn ui(&self, debugging: bool) -> (r: Vec<Item<'_>>)
        ensures
            exists|ids: Seq<u64>| #[trigger] self.is_inspector(debugging, ids, r@),
    {
        let mut items: Vec<Item<'_>> = vec![
            Item::Monospace,
            Item::RawInput { title: "Raw Input", raw: &self.raw },
            Item::Pointer { title: "🖱 Pointer", pointer: &self.pointer },
        ];
        assert(items@ =~= self.inspector_head());

        let ids = self.internal.touch_states.ids();
        let mut i: usize = 0;
        while i < ids.len()
            invariant
                i <= ids.len(),
                crate::devices::lists(self.internal@.touch_states, ids@),
                items@.len() == 3 + i,
                items@.take(3) =~= self.inspector_head(),
                forall|j: int| 0 <= j < i ==> self.is_inspector_device(#[trigger] items@[3 + j], ids@[j]),
            decreases ids.len() - i,
        {
            let id: u64 = ids[i];
            let ghost before = items@;
            assert(ids@.contains(id));
            if let Some(touch) = self.internal.touch_states.get(id) {
                items.push(Item::Touch { title: "Touch State", device_id: TouchDeviceId { value: id }, touch });
            }
            assert(items@.take(3) =~= before.take(3));
            assert forall|j: int| 0 <= j < i + 1 implies self.is_inspector_device(#[trigger] items@[3 + j], ids@[j]) by {
                if j < i {
                    assert(items@[3 + j] == before[3 + j]);
                }
            }
            i += 1;
        }

        let ghost shown = items@;
        let mut scroll = self.show_scroll(debugging);
        items.append(&mut scroll);
        let mut tail = self.show_tail();
        items.append(&mut tail);
        proof {
            let n = 3 + ids@.len() as int;
            assert(items@.take(3) =~= shown.take(3));
            assert(items@.skip(n) =~= self.inspector_scroll(debugging) + self.inspector_tail());
            assert forall|j: int| 0 <= j < ids@.len() implies self.is_inspector_device(
                #[trigger] items@[3 + j],
                ids@[j],
            ) by {
                assert(items@[3 + j] == shown[3 + j]);
            }
            assert(self.is_inspector(debugging, ids@, items@));
        }
        items
    }

    fn show_scroll(&self, debugging: bool) -> (r: Vec<Item<'_>>)
        ensures
            r@ == self.inspector_scroll(debugging),
    {
        let mut items = vec![
            Item::Line(Line::of("Time since last scroll: ", Value::Seconds(self.time_since_last_scroll()), " s")),
        ];
        if debugging {
            items.push(
                Item::Line(
                    Line::of(
                        "unprocessed_scroll_delta: ",
                        Value::Vector(self.internal.unprocessed_scroll_delta),
                        " points",
                    ),
                ),
            );
            items.push(
                Item::Line(
                    Line::of(
                        "unprocessed_scroll_delta_for_zoom: ",
                        Value::Number(self.internal.unprocessed_scroll_delta_for_zoom),
                        " points",
                    ),
                ),
            );
        }
        items
    }

    fn show_tail(&self) -> (r: Vec<Item<'_>>)
        ensures
            r@ == self.inspector_tail(),
    {
        vec![
            Item::Line(Line::of("raw_scroll_delta: ", Value::Vector(self.raw_scroll_delta), " points")),
            Item::Line(Line::of("smooth_scroll_delta: ", Value::Vector(self.smooth_scroll_delta), " points")),
            Item::Line(Line::of("zoom_factor_delta: ", Value::Factor(self.internal.zoom_factor_delta), "x")),
            Item::Line(Line::of("screen_rect: ", Value::Area(self.internal.screen_rect), " points")),
            Item::Line(Line::of("safe_area: ", Value::Insets(self.internal.safe_area), " points")),
            Item::Line(
                Line::of("", Value::Ratio(self.pixels_per_point), " physical pixels for each logical point"),
            ),
            Item::Line(Line::of("max texture size (on each side): ", Value::Count(self.max_texture_side), "")),
            Item::Line(Line::of("time: ", Value::Clock(self.time), " s")),
            Item::Line(Line::of("time since previous frame: ", Value::Millis(self.unstable_dt), " ms")),
            Item::Line(Line::of("predicted_dt: ", Value::Millis(self.predicted_dt), " ms")),
            Item::Line(Line::of("stable_dt:    ", Value::Millis(self.stable_dt), " ms")),
            Item::Line(Line::of("focused:   ", Value::Flag(self.focused), "")),
            Item::Line(Line::of("modifiers: ", Value::Modifiers(self.modifiers), "")),
            Item::Line(Line::of("keys_down: ", Value::Keys(&self.keys_down), "")),
            Item::Tall {
                line: Line {
                    label: "events: ",
                    value: Value::Events(&self.events),
                    unit: "",
                    hover: "key presses etc",
                },
                min_height: Fixed::from_int(150),
            },
        ]
    }
}

} // verus!
