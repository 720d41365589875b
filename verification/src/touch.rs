//! The fingers on touch devices.

use crate::data::{Event, TouchDeviceId, TouchPhase};
use crate::fixed::Fixed;
use crate::geometry::{Pos2, Vec2};
use crate::time::Nanos;
use std::collections::BTreeMap;
use vstd::prelude::*;

verus! {

/// All you probably need to know about a multi-touch gesture.
#[derive(Clone, Copy, Debug, PartialEq, Eq, Structural)]
pub struct MultiTouchInfo {
    /// Point in time when the gesture started.
    pub start_time: Nanos,
    /// Position of the pointer at the time the gesture started.
    pub start_pos: Pos2,
    /// Center position of the current gesture (average of all touch points).
    pub center_pos: Pos2,
    /// Number of touches (fingers) on the surface.
    pub num_touches: usize,
    /// Proportional zoom factor (pinch gesture) this frame.
    pub zoom_delta: Fixed,
    /// Zoom factor on each axis this frame, for gestures that pinch along one axis.
    pub zoom_delta_2d: Vec2,
    /// Rotation in radians this frame.
    pub rotation_delta: Fixed,
    /// Movement (in points) of the average position of all touch points this frame.
    pub translation_delta: Vec2,
    /// Current force of the touch (average of the forces of the individual fingers).
    pub force: Fixed,
}

/// A gesture that was recognised on a touch device this frame.
#[derive(Clone, Copy, Debug, PartialEq, Eq, Structural)]
pub struct Gesture {
    pub device_id: TouchDeviceId,
    pub info: MultiTouchInfo,
}

/// Where a finger touches, and how hard.
#[derive(Clone, Copy, Debug, PartialEq, Eq, Structural)]
pub struct ActiveTouch {
    pub pos: Pos2,
    pub force: Option<Fixed>,
}

/// What a [`TouchState`] holds, as mathematical values.
#[verifier::ext_equal]
pub struct TouchModel {
    pub device_id: TouchDeviceId,
    /// The fingers that are down, by the number of their touch.
    pub active_touches: Map<u64, ActiveTouch>,
    pub gesture: Option<MultiTouchInfo>,
}

/// The fingers that are down after an event, if `touches` were before.
pub open spec fn touches_after_event(
    device_id: TouchDeviceId,
    touches: Map<u64, ActiveTouch>,
    event: Event,
) -> Map<u64, ActiveTouch> {
    match event {
        Event::Touch { device_id: device, id, phase, pos, force } if device == device_id => match phase {
            TouchPhase::Start => touches.insert(id.value, ActiveTouch { pos, force }),
            TouchPhase::Move => if touches.contains_key(id.value) {
                touches.insert(id.value, ActiveTouch { pos, force })
            } else {
                touches
            },
            TouchPhase::End | TouchPhase::Cancel => touches.remove(id.value),
        },
        _ => touches,
    }
}

/// The fingers that are down after a sequence of events.
pub open spec fn touches_after_events(
    device_id: TouchDeviceId,
    touches: Map<u64, ActiveTouch>,
    events: Seq<Event>,
) -> Map<u64, ActiveTouch>
    decreases events.len(),
{
    if events.len() == 0 {
        touches
    } else {
        touches_after_event(device_id, touches_after_events(device_id, touches, events.drop_last()), events.last())
    }
}

/// The first gesture of a device, if there is one.
pub open spec fn gesture_of(gestures: Seq<Gesture>, device_id: TouchDeviceId) -> Option<MultiTouchInfo>
    decreases gestures.len(),
{
    if gestures.len() == 0 {
        None
    } else if gestures[0].device_id == device_id {
        Some(gestures[0].info)
    } else {
        gesture_of(gestures.skip(1), device_id)
    }
}

impl TouchModel {
    /// A device that no finger touches.
    pub open spec fn untouched(device_id: TouchDeviceId) -> TouchModel {
        TouchModel { device_id, active_touches: Map::empty(), gesture: None }
    }

    /// The state after a frame.
    pub open spec fn after_pass(self, events: Seq<Event>, gestures: Seq<Gesture>) -> TouchModel {
        TouchModel {
            active_touches: touches_after_events(self.device_id, self.active_touches, events),
            gesture: gesture_of(gestures, self.device_id),
            ..self
        }
    }

    pub open spec fn any_touches(self) -> bool {
        self.active_touches.len() > 0
    }

    pub open spec fn info(self) -> Option<MultiTouchInfo> {
        if self.active_touches.len() >= 2 {
            self.gesture
        } else {
            None
        }
    }
}

/// The state of a touch device.
#[derive(Clone, Debug)]
pub struct TouchState {
    device_id: TouchDeviceId,
    /// The fingers that are down, by the number of their touch.
    active_touches: BTreeMap<u64, ActiveTouch>,
    /// The gesture that was recognised this frame.
    gesture: Option<MultiTouchInfo>,
}

impl View for TouchState {
    type V = TouchModel;

    closed spec fn view(&self) -> TouchModel {
        TouchModel {
            device_id: self.device_id,
            active_touches: self.active_touches@,
            gesture: self.gesture,
        }
    }
}

impl TouchState {
    /// A device that no finger touches.
    pub fn new(device_id: TouchDeviceId) -> (r: TouchState)
        ensures
            r@ == TouchModel::untouched(device_id),
    {
        TouchState { device_id, active_touches: BTreeMap::new(), gesture: None }
    }

    /// The device.
    pub fn device_id(&self) -> (r: TouchDeviceId)
        ensures
            r == self@.device_id,
    {
        self.device_id
    }

    /// Takes in the events of a frame, and the gestures that were recognised in them.
    pub fn begin_pass(&mut self, events: &Vec<Event>, gestures: &Vec<Gesture>)
        ensures
            final(self)@ == old(self)@.after_pass(events@, gestures@),
    {
        let mut i: usize = 0;
        while i < events.len()
            invariant
                i <= events.len(),
                self.device_id == old(self).device_id,
                self.active_touches@ == touches_after_events(
                    self.device_id,
                    old(self).active_touches@,
                    events@.take(i as int),
                ),
            decreases events.len() - i,
        {
            self.on_event(&events[i]);
            assert(events@.take(i + 1).drop_last() =~= events@.take(i as int));
            i += 1;
        }
        assert(events@.take(i as int) =~= events@);
        self.gesture = self.find_gesture(gestures);
        assert(self@ =~= old(self)@.after_pass(events@, gestures@));
    }

    /// Takes in one event.
    fn on_event(&mut self, event: &Event)
        ensures
            final(self).device_id == old(self).device_id,
            final(self).gesture == old(self).gesture,
            final(self).active_touches@ == touches_after_event(
                old(self).device_id,
                old(self).active_touches@,
                *event,
            ),
    {
        broadcast use vstd::std_specs::btree::group_btree_axioms;
        broadcast use vstd::laws_cmp::group_laws_cmp;

        if let Event::Touch { device_id, id, phase, pos, force } = event {
            if *device_id == self.device_id {
                let touch = ActiveTouch { pos: *pos, force: *force };
                match phase {
                    TouchPhase::Start => {
                        self.active_touches.insert(id.value, touch);
                    },
                    TouchPhase::Move => {
                        if self.active_touches.contains_key(&id.value) {
                            self.active_touches.insert(id.value, touch);
                        }
                    },
                    TouchPhase::End | TouchPhase::Cancel => {
                        self.active_touches.remove(&id.value);
                    },
                }
            }
        }
    }

    /// The first of the gestures on this device.
    fn find_gesture(&self, gestures: &Vec<Gesture>) -> (r: Option<MultiTouchInfo>)
        ensures
            r == gesture_of(gestures@, self.device_id),
    {
        let mut i: usize = 0;
        assert(gestures@.skip(0) =~= gestures@);
        while i < gestures.len()
            invariant
                i <= gestures.len(),
                gesture_of(gestures@, self.device_id) == gesture_of(gestures@.skip(i as int), self.device_id),
            decreases gestures.len() - i,
        {
            if gestures[i].device_id == self.device_id {
                return Some(gestures[i].info);
            }
            assert(gestures@.skip(i as int).skip(1) =~= gestures@.skip(i + 1));
            i += 1;
        }
        None
    }

    /// Whether any finger is down.
    pub fn any_touches(&self) -> (r: bool)
        ensures
            r == self@.any_touches(),
    {
        broadcast use vstd::std_specs::btree::group_btree_axioms;
        broadcast use vstd::laws_cmp::group_laws_cmp;

        self.active_touches.len() > 0
    }

    /// The gesture of two or more fingers this frame, if there is one.
    pub fn info(&self) -> (r: Option<MultiTouchInfo>)
        ensures
            r == self@.info(),
    {
        broadcast use vstd::std_specs::btree::group_btree_axioms;
        broadcast use vstd::laws_cmp::group_laws_cmp;

        if self.active_touches.len() >= 2 {
            self.gesture
        } else {
            None
        }
    }
}

} // verus!
