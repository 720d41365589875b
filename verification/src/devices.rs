//! The touch devices that have been seen.

use crate::data::{Event, TouchDeviceId};
use crate::touch::{Gesture, MultiTouchInfo, TouchModel, TouchState};
use std::collections::BTreeMap;
use vstd::prelude::*;
use vstd::std_specs::cmp::OrdSpec;
use vstd::std_specs::iter::IteratorSpec;

verus! {

/// Whether one of the events comes from the given touch device.
pub open spec fn touched(events: Seq<Event>, id: u64) -> bool {
    exists|i: int| 0 <= i < events.len() && #[trigger] comes_from(events[i], id)
}

/// Whether the event comes from the given touch device.
pub open spec fn comes_from(event: Event, id: u64) -> bool {
    event matches Event::Touch { device_id, .. } && device_id.value == id
}

/// The devices, together with those from which one of the events comes.
pub open spec fn with_new_devices(devices: Map<u64, TouchModel>, events: Seq<Event>) -> Map<u64, TouchModel> {
    Map::new(
        |id: u64| devices.contains_key(id) || touched(events, id),
        |id: u64|
            if devices.contains_key(id) {
                devices[id]
            } else {
                TouchModel::untouched(TouchDeviceId { value: id })
            },
    )
}

/// The devices after each has taken in the events.
pub open spec fn after_pass(
    devices: Map<u64, TouchModel>,
    events: Seq<Event>,
    gestures: Seq<Gesture>,
) -> Map<u64, TouchModel> {
    devices.map_values(|device: TouchModel| device.after_pass(events, gestures))
}

/// Whether `ids` are the numbers of the devices, in increasing order.
pub open spec fn lists(devices: Map<u64, TouchModel>, ids: Seq<u64>) -> bool {
    &&& forall|id: u64| devices.contains_key(id) <==> #[trigger] ids.contains(id)
    &&& forall|i: int, j: int| 0 <= i < j < ids.len() ==> ids[i] < ids[j]
}

/// Whether `info` is the gesture of the first device that has one.
pub open spec fn first_gesture(devices: Map<u64, TouchModel>, info: Option<MultiTouchInfo>) -> bool {
    match info {
        Some(_) => exists|id: u64| #[trigger]
            devices.contains_key(id) && devices[id].info() == info && forall|other: u64|
                other < id && #[trigger] devices.contains_key(other) ==> devices[other].info() is None,
        None => forall|id: u64| #[trigger] devices.contains_key(id) ==> devices[id].info() is None,
    }
}

/// The gesture of the first device that has one.
pub open spec fn multi_touch(devices: Map<u64, TouchModel>) -> Option<MultiTouchInfo> {
    choose|info: Option<MultiTouchInfo>| first_gesture(devices, info)
}

/// There is only one first gesture.
pub proof fn lemma_first_gesture(devices: Map<u64, TouchModel>, info: Option<MultiTouchInfo>)
    requires
        first_gesture(devices, info),
    ensures
        multi_touch(devices) == info,
{
    let chosen = multi_touch(devices);
    assert(first_gesture(devices, chosen));
    if chosen is Some && info is Some {
        let a = choose|id: u64| #[trigger]
            devices.contains_key(id) && devices[id].info() == chosen && forall|other: u64|
                other < id && #[trigger] devices.contains_key(other) ==> devices[other].info() is None;
        let b = choose|id: u64| #[trigger]
            devices.contains_key(id) && devices[id].info() == info && forall|other: u64|
                other < id && #[trigger] devices.contains_key(other) ==> devices[other].info() is None;
        assert(devices.contains_key(a) && devices.contains_key(b));
        assert(a == b);
    }
}

/// Whether a finger is down on one of the devices.
pub open spec fn any_touches(devices: Map<u64, TouchModel>) -> bool {
    exists|id: u64| #[trigger] devices.contains_key(id) && devices[id].any_touches()
}

/// The state of each touch device that has been seen, by the number of the device.
#[derive(Clone, Debug)]
pub struct TouchDevices {
    states: BTreeMap<u64, TouchState>,
}

impl View for TouchDevices {
    type V = Map<u64, TouchModel>;

    closed spec fn view(&self) -> Map<u64, TouchModel> {
        self.states@.map_values(|state: TouchState| state@)
    }
}

impl TouchDevices {
    /// No devices yet.
    pub fn new() -> (r: TouchDevices)
        ensures
            r@ == Map::<u64, TouchModel>::empty(),
    {
        let r = TouchDevices { states: BTreeMap::new() };
        assert(r@ =~= Map::<u64, TouchModel>::empty());
        r
    }

    /// Whether no device has been seen.
    pub fn is_empty(&self) -> (r: bool)
        ensures
            r == (self@ == Map::<u64, TouchModel>::empty()),
    {
        let r = self.states.is_empty();
        proof {
            if r {
                assert(self@ =~= Map::<u64, TouchModel>::empty());
            } else {
                let id = choose|id: u64| self.states@.contains_key(id);
                assert(self@.contains_key(id));
            }
        }
        r
    }

    /// The numbers of the devices, in increasing order.
    pub fn ids(&self) -> (r: Vec<u64>)
        ensures
            lists(self@, r@),
    {
        broadcast use vstd::std_specs::btree::group_btree_axioms;
        broadcast use vstd::laws_cmp::group_laws_cmp;

        let mut ids: Vec<u64> = Vec::new();
        let states = self.states.iter();
        let ghost entries = states.remaining();
        let ghost keys = entries.map_values(|entry: (&u64, &TouchState)| *entry.0);
        for entry in it: states
            invariant
                it.seq().map_values(|entry: (&u64, &TouchState)| *entry.0) == keys,
                ids@ =~= keys.take(it.index()),
        {
            ids.push(*entry.0);
        }
        proof {
            assert(ids@ =~= keys);
            assert forall|id: u64| self@.contains_key(id) <==> #[trigger] ids@.contains(id) by {
                if self.states@.contains_key(id) {
                    let i = choose|i: int|
                        0 <= i < entries.len() && entries[i] == (&id, &self.states@[id]);
                    assert(keys[i] == id);
                }
                if keys.contains(id) {
                    let i = choose|i: int| 0 <= i < keys.len() && keys[i] == id;
                    assert(self.states@.contains_key(*entries[i].0));
                }
            }
            assert forall|i: int, j: int| 0 <= i < j < keys.len() implies keys[i] < keys[j] by {
                assert(keys[i].cmp_spec(&keys[j]) is Less);
            }
        }
        ids
    }

    /// The state of a device, if it has been seen.
    pub fn get(&self, id: u64) -> (r: Option<&TouchState>)
        ensures
            match r {
                Some(state) => self@.contains_key(id) && state@ == self@[id],
                None => !self@.contains_key(id),
            },
    {
        broadcast use vstd::std_specs::btree::group_btree_axioms;
        broadcast use vstd::laws_cmp::group_laws_cmp;

        self.states.get(&id)
    }

    /// Scans `events` for touch devices we have not seen before, and adds each of them.
    pub fn add_new(&mut self, events: &Vec<Event>)
        ensures
            final(self)@ == with_new_devices(old(self)@, events@),
    {
        let mut i: usize = 0;
        assert(self@ =~= with_new_devices(old(self)@, events@.take(0)));
        while i < events.len()
            invariant
                i <= events.len(),
                self@ == with_new_devices(old(self)@, events@.take(i as int)),
            decreases events.len() - i,
        {
            let ghost before = self@;
            let ghost done = events@.take(i as int);
            let ghost next = events@.take(i + 1);
            if let Event::Touch { device_id, .. } = &events[i] {
                self.add(*device_id);
            }
            proof {
                assert forall|id: u64| #[trigger] touched(next, id) <==> touched(done, id) || comes_from(
                    events@[i as int],
                    id,
                ) by {
                    if touched(done, id) {
                        let k = choose|k: int| 0 <= k < done.len() && #[trigger] comes_from(done[k], id);
                        assert(comes_from(next[k], id));
                    }
                    if comes_from(events@[i as int], id) {
                        assert(comes_from(next[i as int], id));
                    }
                    if touched(next, id) {
                        let k = choose|k: int| 0 <= k < next.len() && #[trigger] comes_from(next[k], id);
                        assert(k < i ==> comes_from(done[k], id));
                    }
                }
                assert(self@ =~= with_new_devices(old(self)@, next));
            }
            i += 1;
        }
        assert(events@.take(i as int) =~= events@);
    }

    /// Adds a device, unless it has been seen before.
    fn add(&mut self, device_id: TouchDeviceId)
        ensures
            final(self)@ == if old(self)@.contains_key(device_id.value) {
                old(self)@
            } else {
                old(self)@.insert(device_id.value, TouchModel::untouched(device_id))
            },
    {
        broadcast use vstd::std_specs::btree::group_btree_axioms;
        broadcast use vstd::laws_cmp::group_laws_cmp;

        if !self.states.contains_key(&device_id.value) {
            self.states.insert(device_id.value, TouchState::new(device_id));
            assert(self@ =~= old(self)@.insert(device_id.value, TouchModel::untouched(device_id)));
        }
    }

    /// Lets each device take in the events of a frame, and the gestures that were recognised in them.
    pub fn begin_pass(&mut self, events: &Vec<Event>, gestures: &Vec<Gesture>)
        ensures
            final(self)@ == after_pass(old(self)@, events@, gestures@),
    {
        let ids = self.ids();
        let mut i: usize = 0;
        while i < ids.len()
            invariant
                i <= ids.len(),
                forall|id: u64| old(self)@.contains_key(id) <==> #[trigger] ids@.contains(id),
                forall|a: int, b: int| 0 <= a < b < ids@.len() ==> ids@[a] < ids@[b],
                self@.dom() == old(self)@.dom(),
                forall|j: int|
                    0 <= j < i ==> self@[#[trigger] ids@[j]] == old(self)@[ids@[j]].after_pass(
                        events@,
                        gestures@,
                    ),
                forall|j: int| i <= j < ids@.len() ==> self@[#[trigger] ids@[j]] == old(self)@[ids@[j]],
            decreases ids.len() - i,
        {
            assert(ids@.contains(ids@[i as int]));
            self.begin_pass_of(ids[i], events, gestures);
            i += 1;
        }
        proof {
            assert forall|id: u64| #[trigger] old(self)@.contains_key(id) implies self@[id] == old(self)@[id].after_pass(
                events@,
                gestures@,
            ) by {
                assert(ids@.contains(id));
            }
            assert(self@ =~= after_pass(old(self)@, events@, gestures@));
        }
    }

    /// Lets one device take in the events of a frame.
    fn begin_pass_of(&mut self, id: u64, events: &Vec<Event>, gestures: &Vec<Gesture>)
        requires
            old(self)@.contains_key(id),
        ensures
            final(self)@ == old(self)@.insert(id, old(self)@[id].after_pass(events@, gestures@)),
    {
        broadcast use vstd::std_specs::btree::group_btree_axioms;
        broadcast use vstd::laws_cmp::group_laws_cmp;

        if let Some(mut state) = self.states.remove(&id) {
            state.begin_pass(events, gestures);
            self.states.insert(id, state);
        }
        assert(self@ =~= old(self)@.insert(id, old(self)@[id].after_pass(events@, gestures@)));
    }

    /// The gesture of the first device that has one.
    pub fn multi_touch(&self) -> (r: Option<MultiTouchInfo>)
        ensures
            first_gesture(self@, r),
            r == multi_touch(self@),
    {
        broadcast use vstd::std_specs::btree::group_btree_axioms;
        broadcast use vstd::laws_cmp::group_laws_cmp;

        let ids = self.ids();
        let mut i: usize = 0;
        while i < ids.len()
            invariant
                i <= ids.len(),
                forall|id: u64| self@.contains_key(id) <==> #[trigger] ids@.contains(id),
                forall|a: int, b: int| 0 <= a < b < ids@.len() ==> ids@[a] < ids@[b],
                forall|j: int| 0 <= j < i ==> self@[#[trigger] ids@[j]].info() is None,
            decreases ids.len() - i,
        {
            let id: u64 = ids[i];
            assert(ids@.contains(id));
            if let Some(state) = self.states.get(&id) {
                let info = state.info();
                if info.is_some() {
                    proof {
                        assert forall|other: u64| other < id && #[trigger] self@.contains_key(other) implies self@[other].info() is None by {
                            assert(ids@.contains(other));
                        }
                        assert(self@.contains_key(id));
                        lemma_first_gesture(self@, info);
                    }
                    return info;
                }
            }
            i += 1;
        }
        proof {
            assert forall|id: u64| #[trigger] self@.contains_key(id) implies self@[id].info() is None by {
                assert(ids@.contains(id));
            }
            lemma_first_gesture(self@, None);
        }
        None
    }

    /// Whether a finger is down on one of the devices.
    pub fn any_touches(&self) -> (r: bool)
        ensures
            r == any_touches(self@),
    {
        broadcast use vstd::std_specs::btree::group_btree_axioms;
        broadcast use vstd::laws_cmp::group_laws_cmp;

        let ids = self.ids();
        let mut i: usize = 0;
        while i < ids.len()
            invariant
                i <= ids.len(),
                forall|id: u64| self@.contains_key(id) <==> #[trigger] ids@.contains(id),
                forall|j: int| 0 <= j < i ==> !self@[#[trigger] ids@[j]].any_touches(),
            decreases ids.len() - i,
        {
            let id: u64 = ids[i];
            assert(ids@.contains(id));
            if let Some(state) = self.states.get(&id) {
                if state.any_touches() {
                    assert(self@.contains_key(id));
                    return true;
                }
            }
            i += 1;
        }
        proof {
            assert forall|id: u64| #[trigger] self@.contains_key(id) implies !self@[id].any_touches() by {
                assert(ids@.contains(id));
            }
        }
        false
    }
}

} // verus!
