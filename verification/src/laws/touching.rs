//! Fingers and gestures.

use crate::data::{Event, TouchDeviceId, TouchId, TouchPhase};
use crate::devices;
use crate::fixed::Fixed;
use crate::geometry::Pos2;
use crate::touch::{gesture_of, touches_after_event, touches_after_events, ActiveTouch, Gesture, TouchModel};
use vstd::prelude::*;

verus! {

/// A finger that is put down is where the event says, and so is one that is down and moves. One
/// that is lifted or taken away is not down any more, and one that only moves is not put down by
/// that. No other finger changes, and none on another device.
pub proof fn events_move_their_finger(
    device: TouchDeviceId,
    touches: Map<u64, ActiveTouch>,
    other_device: TouchDeviceId,
    id: TouchId,
    phase: TouchPhase,
    pos: Pos2,
    force: Option<Fixed>,
    other: u64,
)
    requires
        other != id.value,
        other_device != device,
    ensures
        ({
            let event = Event::Touch { device_id: device, id, phase, pos, force };
            let after = touches_after_event(device, touches, event);
            let finger = id.value;
            &&& phase == TouchPhase::Start ==> after.contains_key(finger)
            &&& phase == TouchPhase::Move ==> after.contains_key(finger) == touches.contains_key(finger)
            &&& phase == TouchPhase::End || phase == TouchPhase::Cancel ==> !after.contains_key(finger)
            &&& after.contains_key(finger) ==> after[finger].pos == pos && after[finger].force == force
            &&& after.contains_key(other) == touches.contains_key(other)
            &&& touches.contains_key(other) ==> after[other] == touches[other]
            &&& touches_after_event(other_device, touches, event) == touches
        }),
{
}

/// Events move fingers one after the other: what two lists do is what the second does after the
/// first. What is no touch does nothing.
pub proof fn events_touch_one_after_the_other(
    device: TouchDeviceId,
    touches: Map<u64, ActiveTouch>,
    first: Seq<Event>,
    second: Seq<Event>,
    event: Event,
)
    ensures
        touches_after_events(device, touches, first + second) == touches_after_events(
            device,
            touches_after_events(device, touches, first),
            second,
        ),
        touches_after_events(device, touches, Seq::empty()) == touches,
        touches_after_events(device, touches, seq![event]) == touches_after_event(device, touches, event),
        !(event is Touch) ==> touches_after_event(device, touches, event) == touches,
    decreases second.len(),
{
    assert(seq![event].drop_last() =~= Seq::empty());
    assert(touches_after_events(device, touches, Seq::empty()) == touches);
    if second.len() == 0 {
        assert(first + second =~= first);
    } else {
        assert((first + second).drop_last() =~= first + second.drop_last());
        events_touch_one_after_the_other(device, touches, first, second.drop_last(), event);
    }
}

/// The gesture of a device is the first in the list that is on it, and there is none if the list has
/// none on it.
pub proof fn the_first_gesture_on_a_device_counts(gestures: Seq<Gesture>, device: TouchDeviceId, first: int)
    ensures
        0 <= first < gestures.len() && gestures[first].device_id == device && (forall|j: int|
            0 <= j < first ==> #[trigger] gestures[j].device_id != device) ==> gesture_of(gestures, device) == Some(
            gestures[first].info,
        ),
        (forall|j: int| 0 <= j < gestures.len() ==> #[trigger] gestures[j].device_id != device) ==> gesture_of(
            gestures,
            device,
        ) is None,
    decreases gestures.len(),
{
    if gestures.len() > 0 && gestures[0].device_id != device {
        let rest = gestures.skip(1);
        the_first_gesture_on_a_device_counts(rest, device, first - 1);
        if 0 <= first < gestures.len() && gestures[first].device_id == device && (forall|j: int|
            0 <= j < first ==> #[trigger] gestures[j].device_id != device) {
            assert(rest[first - 1] == gestures[first]);
            assert forall|j: int| 0 <= j < first - 1 implies #[trigger] rest[j].device_id != device by {
                assert(rest[j] == gestures[j + 1]);
            }
        }
        if forall|j: int| 0 <= j < gestures.len() ==> #[trigger] gestures[j].device_id != device {
            assert forall|j: int| 0 <= j < rest.len() implies #[trigger] rest[j].device_id != device by {
                assert(rest[j] == gestures[j + 1]);
            }
        }
    }
}

/// A device shows the gesture of the frame if at least two fingers are down on it after the frame,
/// and else none. It keeps its number.
pub proof fn two_fingers_show_the_gesture(touch: TouchModel, events: Seq<Event>, gestures: Seq<Gesture>)
    ensures
        ({
            let after = touch.after_pass(events, gestures);
            &&& after.device_id == touch.device_id
            &&& after.active_touches == touches_after_events(touch.device_id, touch.active_touches, events)
            &&& after.active_touches.len() >= 2 ==> after.info() == gesture_of(gestures, touch.device_id)
            &&& after.active_touches.len() < 2 ==> after.info() is None
        }),
{
}

/// Fingers touch if and only if one is down on one of the devices.
pub proof fn fingers_touch_if_one_is_down(touches: Map<u64, TouchModel>)
    requires
        forall|id: u64| #[trigger] touches.contains_key(id) ==> touches[id].active_touches.dom().finite(),
    ensures
        devices::any_touches(touches) <==> exists|id: u64, finger: u64|
            touches.contains_key(id) && #[trigger] touches[id].active_touches.contains_key(finger),
{
    if devices::any_touches(touches) {
        let id = choose|id: u64| #[trigger] touches.contains_key(id) && touches[id].any_touches();
        let fingers = touches[id].active_touches.dom();
        assert(fingers.len() > 0);
        let finger = fingers.choose();
        assert(fingers.contains(finger));
        assert(touches[id].active_touches.contains_key(finger));
    }
    if exists|id: u64, finger: u64|
        touches.contains_key(id) && #[trigger] touches[id].active_touches.contains_key(finger) {
        let (id, finger) = choose|id: u64, finger: u64|
            touches.contains_key(id) && #[trigger] touches[id].active_touches.contains_key(finger);
        assert(touches[id].active_touches.dom().contains(finger));
        assert(touches[id].active_touches.dom().len() > 0);
        assert(touches[id].any_touches());
    }
}

/// A device that is new starts without fingers, and one that has been seen goes on from where it
/// was: each takes in the events of the frame for itself.
pub proof fn each_device_takes_in_the_events(
    before: Map<u64, TouchModel>,
    events: Seq<Event>,
    gestures: Seq<Gesture>,
    id: u64,
)
    requires
        before.contains_key(id) || exists|i: int|
            0 <= i < events.len() && (#[trigger] events[i] matches Event::Touch { device_id, .. } && device_id.value
                == id),
    ensures
        ({
            let after = devices::after_pass(devices::with_new_devices(before, events), events, gestures);
            let fingers = if before.contains_key(id) {
                before[id].active_touches
            } else {
                Map::<u64, ActiveTouch>::empty()
            };
            let device = if before.contains_key(id) {
                before[id].device_id
            } else {
                TouchDeviceId { value: id }
            };
            &&& after.contains_key(id)
            &&& after[id].device_id == device
            &&& after[id].active_touches == touches_after_events(device, fingers, events)
        }),
{
    if !before.contains_key(id) {
        let i = choose|i: int|
            0 <= i < events.len() && (#[trigger] events[i] matches Event::Touch { device_id, .. } && device_id.value
                == id);
        assert(devices::comes_from(events[i], id));
    }
}

/// No device is there that was not seen before and from which no touch comes.
pub proof fn no_device_comes_from_nowhere(
    before: Map<u64, TouchModel>,
    events: Seq<Event>,
    gestures: Seq<Gesture>,
    id: u64,
)
    requires
        !before.contains_key(id),
        forall|i: int|
            0 <= i < events.len() ==> !(#[trigger] events[i] matches Event::Touch { device_id, .. } && device_id.value
                == id),
    ensures
        !devices::after_pass(devices::with_new_devices(before, events), events, gestures).contains_key(id),
{
}

} // verus!
