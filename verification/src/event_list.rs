//! What a list of events says about keys and requests.

use crate::data::{Action, ActionRequest, Event, EventFilter, Id, Key};
use crate::keys::KeySet;
use crate::modifiers::Modifiers;
use vstd::prelude::*;

verus! {

/// Whether the event is a press of the key.
pub open spec fn is_press(event: Event, key: Key) -> bool {
    event matches Event::Key { key: k, pressed: true, .. } && k == key
}

/// Whether the event is a release of the key.
pub open spec fn is_release(event: Event, key: Key) -> bool {
    event matches Event::Key { key: k, pressed: false, .. } && k == key
}

/// Whether the event is a press of the key with the given modifiers, extra Shift and Alt aside.
pub open spec fn is_shortcut(event: Event, modifiers: Modifiers, key: Key) -> bool {
    event matches Event::Key { key: k, modifiers: m, pressed: true, .. } && k == key && m.matches_logically(
        modifiers,
    )
}

/// The presses of a key among the events.
pub open spec fn presses(events: Seq<Event>, key: Key) -> Seq<Event> {
    events.filter(|event: Event| is_press(event, key))
}

/// The presses of a shortcut among the events.
pub open spec fn shortcuts(events: Seq<Event>, modifiers: Modifiers, key: Key) -> Seq<Event> {
    events.filter(|event: Event| is_shortcut(event, modifiers, key))
}

/// The events without the presses of a shortcut.
pub open spec fn without_shortcuts(events: Seq<Event>, modifiers: Modifiers, key: Key) -> Seq<Event> {
    events.filter(|event: Event| !is_shortcut(event, modifiers, key))
}

/// The events that a filter lets through.
pub open spec fn filtered(events: Seq<Event>, filter: EventFilter) -> Seq<Event> {
    events.filter(|event: Event| filter.matches(&event))
}

/// The keys that are down after an event, if `keys` were before.
pub open spec fn keys_after_event(keys: Set<Key>, event: Event) -> Set<Key> {
    match event {
        Event::Key { key, pressed, .. } => if pressed {
            keys.insert(key)
        } else {
            keys.remove(key)
        },
        Event::WindowFocused(false) => Set::empty(),
        _ => keys,
    }
}

/// The keys that are down after a sequence of events.
pub open spec fn keys_after_events(keys: Set<Key>, events: Seq<Event>) -> Set<Key>
    decreases events.len(),
{
    if events.len() == 0 {
        keys
    } else {
        keys_after_event(keys_after_events(keys, events.drop_last()), events.last())
    }
}

/// The event, marked as a repetition if it presses a key that was down before.
pub open spec fn marked(event: Event, keys: Set<Key>) -> Event {
    match event {
        Event::Key { key, physical_key, pressed: true, repeat, modifiers } => Event::Key {
            key,
            physical_key,
            pressed: true,
            repeat: keys.contains(key),
            modifiers,
        },
        _ => event,
    }
}

/// The events, each marked by the keys that were down before it.
pub open spec fn all_marked(events: Seq<Event>, keys: Set<Key>) -> Seq<Event> {
    Seq::new(events.len(), |i: int| marked(events[i], keys_after_events(keys, events.take(i))))
}

/// Follows the keys through the events, and marks the presses that are repetitions.
pub fn follow_keys(keys: &mut KeySet, events: &mut Vec<Event>)
    ensures
        final(keys)@ == keys_after_events(old(keys)@, old(events)@),
        final(events)@ == all_marked(old(events)@, old(keys)@),
{
    let mut i: usize = 0;
    while i < events.len()
        invariant
            i <= events.len(),
            events@.len() == old(events)@.len(),
            keys@ == keys_after_events(old(keys)@, old(events)@.take(i as int)),
            forall|j: int| 0 <= j < i ==> #[trigger] events@[j] == all_marked(old(events)@, old(keys)@)[j],
            forall|j: int| i <= j < events@.len() ==> #[trigger] events@[j] == old(events)@[j],
        decreases events.len() - i,
    {
        let ghost event = old(events)@[i as int];
        let ghost before = keys@;
        assert(event == events@[i as int]);
        let mut mark: Option<Event> = None;
        match &events[i] {
            Event::Key { key, physical_key, pressed, modifiers, .. } => {
                if *pressed {
                    let first_press = keys.insert(*key);
                    mark = Some(
                        Event::Key {
                            key: *key,
                            physical_key: *physical_key,
                            pressed: true,
                            repeat: !first_press,
                            modifiers: *modifiers,
                        },
                    );
                } else {
                    keys.remove(*key);
                }
            },
            Event::WindowFocused(focused) => {
                // Pressing a shortcut may bring up a dialog of the system, which takes the focus
                // and the release of the key along. So the keys count as released when the
                // focus goes.
                if !*focused {
                    keys.clear();
                }
            },
            _ => {},
        }
        if let Some(event) = mark {
            events.set(i, event);
        }
        proof {
            assert(old(events)@.take(i + 1).drop_last() =~= old(events)@.take(i as int));
            assert(keys@ == keys_after_event(before, event));
            assert(events@[i as int] == marked(event, before));
        }
        i += 1;
    }
    assert(old(events)@.take(i as int) =~= old(events)@);
    assert(events@ =~= all_marked(old(events)@, old(keys)@));
}

/// Filtering one event more.
proof fn lemma_filter_next(events: Seq<Event>, i: int, keep: spec_fn(Event) -> bool)
    requires
        0 <= i < events.len(),
    ensures
        events.take(i + 1).filter(keep) == if keep(events[i]) {
            events.take(i).filter(keep).push(events[i])
        } else {
            events.take(i).filter(keep)
        },
{
    reveal(Seq::filter);
    assert(events.take(i + 1).drop_last() =~= events.take(i));
}

/// Counts the presses of a key.
pub fn count_presses(events: &Vec<Event>, key: Key) -> (r: usize)
    ensures
        r == presses(events@, key).len(),
{
    let ghost keep = |event: Event| is_press(event, key);
    let mut count: usize = 0;
    let mut i: usize = 0;
    assert(events@.take(0).filter(keep).len() == 0) by {
        reveal(Seq::filter);
    }
    while i < events.len()
        invariant
            i <= events.len(),
            count <= i,
            keep == (|event: Event| is_press(event, key)),
            count == events@.take(i as int).filter(keep).len(),
        decreases events.len() - i,
    {
        proof {
            lemma_filter_next(events@, i as int, keep);
        }
        if matches!(&events[i], Event::Key { key: k, pressed: true, .. } if *k == key) {
            count += 1;
        }
        i += 1;
    }
    assert(events@.take(i as int) =~= events@);
    count
}

/// Takes the presses of a shortcut out of the events, and counts them.
pub fn remove_shortcuts(events: &mut Vec<Event>, modifiers: Modifiers, key: Key) -> (r: usize)
    ensures
        r == shortcuts(old(events)@, modifiers, key).len(),
        final(events)@ == without_shortcuts(old(events)@, modifiers, key),
{
    let ghost hit = |event: Event| is_shortcut(event, modifiers, key);
    let ghost keep = |event: Event| !is_shortcut(event, modifiers, key);
    let ghost all = events@;
    let total: usize = events.len();
    let mut count: usize = 0;
    let mut i: usize = 0;
    proof {
        reveal(Seq::filter);
        assert(all.take(0).filter(keep) =~= all.take(0));
        assert(events@.take(0) =~= all.take(0));
        assert(events@.skip(0) =~= all.skip(0));
    }
    while i < events.len()
        invariant
            i <= events.len(),
            all == old(events)@,
            events@.len() + count == all.len() == total,
            keep == (|event: Event| !is_shortcut(event, modifiers, key)),
            hit == (|event: Event| is_shortcut(event, modifiers, key)),
            events@.take(i as int) == all.take(i + count).filter(keep),
            events@.skip(i as int) == all.skip(i + count),
            count == all.take(i + count).filter(hit).len(),
        decreases events.len() - i,
    {
        let ghost before = events@;
        let ghost event = before[i as int];
        proof {
            assert(event == before.skip(i as int)[0]);
            assert(event == all[i + count]);
            lemma_filter_next(all, i + count, keep);
            lemma_filter_next(all, i + count, hit);
        }
        let is_match =
            matches!(&events[i], Event::Key { key: k, modifiers: m, pressed: true, .. } if *k == key && m.matches_logically(modifiers));
        if is_match {
            let _ = events.remove(i);
            proof {
                assert(events@.take(i as int) =~= before.take(i as int));
                assert(events@.skip(i as int) =~= before.skip(i as int).skip(1));
                assert(all.skip(i + count).skip(1) =~= all.skip(i + count + 1));
            }
            count += 1;
        } else {
            proof {
                assert(events@.take(i + 1) =~= before.take(i as int).push(event));
                assert(events@.skip(i + 1) =~= before.skip(i as int).skip(1));
                assert(all.skip(i + count).skip(1) =~= all.skip(i + count + 1));
            }
            i += 1;
        }
    }
    proof {
        assert(events@.take(i as int) =~= events@);
        assert(all.take(i + count) =~= all);
    }
    count
}

/// Whether a key is released in the events.
pub fn any_release(events: &Vec<Event>, key: Key) -> (r: bool)
    ensures
        r == exists|i: int| 0 <= i < events@.len() && is_release(#[trigger] events@[i], key),
{
    let mut i: usize = 0;
    while i < events.len()
        invariant
            i <= events.len(),
            forall|j: int| 0 <= j < i ==> !is_release(#[trigger] events@[j], key),
        decreases events.len() - i,
    {
        if matches!(&events[i], Event::Key { key: k, pressed: false, .. } if *k == key) {
            assert(is_release(events@[i as int], key));
            return true;
        }
        i += 1;
    }
    false
}

/// Copies the events that a filter lets through.
pub fn filter_events(events: &Vec<Event>, filter: EventFilter) -> (r: Vec<Event>)
    ensures
        r@ == filtered(events@, filter),
{
    let ghost keep = |event: Event| filter.matches(&event);
    let mut kept: Vec<Event> = Vec::new();
    let mut i: usize = 0;
    assert(events@.take(0).filter(keep) =~= kept@) by {
        reveal(Seq::filter);
    }
    while i < events.len()
        invariant
            i <= events.len(),
            keep == (|event: Event| filter.matches(&event)),
            kept@ == events@.take(i as int).filter(keep),
        decreases events.len() - i,
    {
        proof {
            lemma_filter_next(events@, i as int, keep);
        }
        if filter.matches(&events[i]) {
            kept.push(events[i].clone());
        }
        i += 1;
    }
    assert(events@.take(i as int) =~= events@);
    kept
}

/// Whether the event asks the widget to perform the action.
pub open spec fn is_request(event: Event, id: Id, action: Action) -> bool {
    event matches Event::AccessKitActionRequest(request) && request.target == id.accesskit_id() && request.action
        == action
}

/// Whether the event asks the widget for anything.
pub open spec fn is_addressed(event: Event, id: Id) -> bool {
    event matches Event::AccessKitActionRequest(request) && request.target == id.accesskit_id()
}

/// The request in an event.
pub open spec fn request_of(event: Event) -> ActionRequest {
    event->AccessKitActionRequest_0
}

/// The requests of the widget to perform the action, in order.
pub open spec fn requests(events: Seq<Event>, id: Id, action: Action) -> Seq<ActionRequest> {
    events.filter(|event: Event| is_request(event, id, action)).map_values(|event: Event| request_of(event))
}

/// Whether the event asks the widget for the action, or for anything if no action is given.
spec fn is_wanted(event: Event, id: Id, action: Option<Action>) -> bool {
    match action {
        Some(action) => is_request(event, id, action),
        None => is_addressed(event, id),
    }
}

/// Lists the requests to the widget for the action, or for anything if no action is given, in
/// order.
fn list_wanted(events: &Vec<Event>, id: Id, action: Option<Action>) -> (r: Vec<ActionRequest>)
    ensures
        r@ == events@.filter(|event: Event| is_wanted(event, id, action)).map_values(
            |event: Event| request_of(event),
        ),
{
    let ghost keep = |event: Event| is_wanted(event, id, action);
    let mut found: Vec<ActionRequest> = Vec::new();
    let mut i: usize = 0;
    assert(events@.take(0).filter(keep).len() == 0) by {
        reveal(Seq::filter);
    }
    while i < events.len()
        invariant
            i <= events.len(),
            keep == (|event: Event| is_wanted(event, id, action)),
            found@ =~= events@.take(i as int).filter(keep).map_values(|event: Event| request_of(event)),
        decreases events.len() - i,
    {
        proof {
            lemma_filter_next(events@, i as int, keep);
        }
        if let Event::AccessKitActionRequest(request) = &events[i] {
            let wanted = match action {
                Some(action) => request.action == action,
                None => true,
            };
            if request.target == id.accesskit_id() && wanted {
                found.push(*request);
            }
        }
        i += 1;
    }
    assert(events@.take(i as int) =~= events@);
    found
}

/// Lists the requests of the widget to perform the action, in order.
pub fn list_requests(events: &Vec<Event>, id: Id, action: Action) -> (r: Vec<ActionRequest>)
    ensures
        r@ == requests(events@, id, action),
{
    assert((|event: Event| is_wanted(event, id, Some(action))) =~= (|event: Event| is_request(event, id, action)));
    list_wanted(events, id, Some(action))
}

/// The events that ask the widget for anything, in order.
pub open spec fn addressed(events: Seq<Event>, id: Id) -> Seq<Event> {
    events.filter(|event: Event| is_addressed(event, id))
}

/// All requests to the widget, in order.
pub open spec fn all_requests(events: Seq<Event>, id: Id) -> Seq<ActionRequest> {
    addressed(events, id).map_values(|event: Event| request_of(event))
}

/// Lists all requests to the widget, in order.
pub fn list_all_requests(events: &Vec<Event>, id: Id) -> (r: Vec<ActionRequest>)
    ensures
        r@ == all_requests(events@, id),
{
    assert((|event: Event| is_wanted(event, id, None)) =~= (|event: Event| is_addressed(event, id)));
    list_wanted(events, id, None)
}

/// Whether the request to the widget with the given number is answered with `true`.
pub open spec fn is_answered(answers: Seq<bool>, k: int) -> bool {
    0 <= k < answers.len() && answers[k]
}

/// The events without those requests to the widget that are answered with `true`. There is an
/// answer to each request to the widget, in order; a request without one is left.
pub open spec fn without_answered(events: Seq<Event>, id: Id, answers: Seq<bool>) -> Seq<Event>
    decreases events.len(),
{
    if events.len() == 0 {
        Seq::empty()
    } else {
        let rest = without_answered(events.drop_last(), id, answers);
        if is_addressed(events.last(), id) && is_answered(answers, addressed(events.drop_last(), id).len() as int) {
            rest
        } else {
            rest.push(events.last())
        }
    }
}

/// Takes those requests to the widget out of the events that are answered with `true`. There is
/// an answer to each request to the widget, in order; a request without one is left.
pub fn remove_answered(events: &mut Vec<Event>, id: Id, answers: &Vec<bool>)
    ensures
        final(events)@ == without_answered(old(events)@, id, answers@),
{
    let ghost all = events@;
    let ghost keep = |event: Event| is_addressed(event, id);
    let ghost mut done: int = 0;
    let count: usize = events.len();
    let mut asked: usize = 0;
    let mut i: usize = 0;
    proof {
        reveal(Seq::filter);
        assert(events@.take(0) =~= without_answered(all.take(0), id, answers@));
        assert(events@.skip(0) =~= all.skip(0));
        assert(all.take(0).filter(keep).len() == 0);
    }
    while i < events.len()
        invariant
            i <= events.len(),
            all == old(events)@,
            0 <= done,
            done + events@.len() == all.len() + i,
            keep == (|event: Event| is_addressed(event, id)),
            asked == all.take(done).filter(keep).len(),
            asked <= done,
            all.len() == count,
            events@.take(i as int) == without_answered(all.take(done), id, answers@),
            events@.skip(i as int) == all.skip(done),
        decreases events.len() - i,
    {
        let ghost before = events@;
        let ghost event = before[i as int];
        proof {
            assert(event == before.skip(i as int)[0]);
            assert(event == all[done]);
            lemma_filter_next(all, done, keep);
            assert(all.take(done + 1).drop_last() =~= all.take(done));
            assert(all.skip(done).skip(1) =~= all.skip(done + 1));
        }
        let mut gone = false;
        if let Event::AccessKitActionRequest(request) = &events[i] {
            if request.target == id.accesskit_id() {
                gone = asked < answers.len() && answers[asked];
                asked += 1;
            }
        }
        proof {
            done = done + 1;
        }
        if gone {
            let _ = events.remove(i);
            proof {
                assert(events@.take(i as int) =~= before.take(i as int));
                assert(events@.skip(i as int) =~= before.skip(i as int).skip(1));
            }
        } else {
            proof {
                assert(events@.take(i + 1) =~= before.take(i as int).push(event));
                assert(events@.skip(i + 1) =~= before.skip(i as int).skip(1));
            }
            i += 1;
        }
    }
    proof {
        assert(events@.take(i as int) =~= events@);
        assert(all.take(done) =~= all);
    }
}

/// Whether `answers` are answers that `consume` may give to the requests.
pub open spec fn answers_to<F: FnMut(&ActionRequest) -> bool>(
    consume: F,
    requests: Seq<ActionRequest>,
    answers: Seq<bool>,
) -> bool {
    &&& answers.len() == requests.len()
    &&& forall|k: int| 0 <= k < requests.len() ==> consume.ensures((&requests[k],), #[trigger] answers[k])
}

/// Takes those requests to the widget out of the events that `consume` answers with `true`.
pub fn remove_requests<F: FnMut(&ActionRequest) -> bool>(events: &mut Vec<Event>, id: Id, mut consume: F)
    requires
        forall|request: ActionRequest| consume.requires((&request,)),
    ensures
        exists|answers: Seq<bool>| #[trigger]
            answers_to(consume, all_requests(old(events)@, id), answers) && final(events)@ == without_answered(
                old(events)@,
                id,
                answers,
            ),
{
    let ghost asked = consume;
    let requests = list_all_requests(events, id);
    let mut answers: Vec<bool> = Vec::new();
    let mut k: usize = 0;
    while k < requests.len()
        invariant
            k <= requests.len(),
            forall|request: ActionRequest| consume.requires((&request,)),
            consume == asked,
            answers_to(asked, requests@.take(k as int), answers@),
        decreases requests.len() - k,
    {
        let ghost before = answers@;
        let answer = consume(&requests[k]);
        answers.push(answer);
        proof {
            let now = requests@.take(k + 1);
            assert forall|j: int| 0 <= j < now.len() implies asked.ensures((&now[j],), #[trigger] answers@[j]) by {
                if j < k {
                    assert(requests@.take(k as int)[j] == now[j]);
                    assert(before[j] == answers@[j]);
                }
            }
        }
        k += 1;
    }
    assert(requests@.take(k as int) =~= requests@);
    remove_answered(events, id, &answers);
}

} // verus!
