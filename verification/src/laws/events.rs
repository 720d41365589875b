//! What events say about keys and requests, one by one and in lists.

use crate::data::{Action, ActionRequest, Event, EventFilter, Id, Key, PointerButton};
use crate::event_list::{
    addressed, all_requests, filtered, is_addressed, is_press, is_release, is_request, is_shortcut, presses, requests,
    shortcuts, without_answered, without_shortcuts,
};
use crate::modifiers::Modifiers;
use vstd::prelude::*;

verus! {

/// An event about a key is a press or a release of that key and of no other, whether it is a
/// repetition or not and whatever the modifiers. It is a shortcut if it is a press with modifiers
/// that match. An event of another kind is none of these.
pub proof fn keys_are_told_apart(event: Event, wanted: Key, pattern: Modifiers)
    ensures
        event matches Event::Key { key, pressed, modifiers, .. } ==> {
            &&& is_press(event, wanted) <==> pressed && key == wanted
            &&& is_release(event, wanted) <==> !pressed && key == wanted
            &&& is_shortcut(event, pattern, wanted) <==> pressed && key == wanted && modifiers.matches_logically(pattern)
        },
        !(event is Key) ==> !is_press(event, wanted) && !is_release(event, wanted) && !is_shortcut(
            event,
            pattern,
            wanted,
        ),
{
}

/// A request is to the widget whose number it carries, and for the action that it carries.
pub proof fn requests_are_told_apart(event: Event, id: Id, action: Action)
    ensures
        event matches Event::AccessKitActionRequest(request) ==> {
            &&& is_addressed(event, id) <==> request.target == id.value
            &&& is_request(event, id, action) <==> request.target == id.value && request.action == action
        },
        !(event is AccessKitActionRequest) ==> !is_addressed(event, id) && !is_request(event, id, action),
{
}

/// A list of one event holds what the event is.
pub proof fn lists_of_one_hold_the_event(
    event: Event,
    key: Key,
    pattern: Modifiers,
    id: Id,
    action: Action,
    filter: EventFilter,
)
    ensures
        presses(seq![event], key) == if is_press(event, key) {
            seq![event]
        } else {
            Seq::<Event>::empty()
        },
        shortcuts(seq![event], pattern, key) == if is_shortcut(event, pattern, key) {
            seq![event]
        } else {
            Seq::<Event>::empty()
        },
        without_shortcuts(seq![event], pattern, key) == if is_shortcut(event, pattern, key) {
            Seq::<Event>::empty()
        } else {
            seq![event]
        },
        filtered(seq![event], filter) == if filter.matches(&event) {
            seq![event]
        } else {
            Seq::<Event>::empty()
        },
        event matches Event::AccessKitActionRequest(request) ==> {
            &&& requests(seq![event], id, action) == if request.target == id.value && request.action == action {
                seq![request]
            } else {
                Seq::<ActionRequest>::empty()
            }
            &&& all_requests(seq![event], id) == if request.target == id.value {
                seq![request]
            } else {
                Seq::<ActionRequest>::empty()
            }
        },
        !(event is AccessKitActionRequest) ==> requests(seq![event], id, action).len() == 0 && all_requests(
            seq![event],
            id,
        ).len() == 0,
{
    lemma_filter_one(event, |event: Event| is_press(event, key));
    lemma_filter_one(event, |event: Event| is_shortcut(event, pattern, key));
    lemma_filter_one(event, |event: Event| !is_shortcut(event, pattern, key));
    lemma_filter_one(event, |event: Event| filter.matches(&event));
    lemma_filter_one(event, |event: Event| is_request(event, id, action));
    lemma_filter_one(event, |event: Event| is_addressed(event, id));
    if is_request(event, id, action) {
        assert(requests(seq![event], id, action) =~= seq![crate::event_list::request_of(event)]);
    } else {
        assert(requests(seq![event], id, action) =~= Seq::<ActionRequest>::empty());
    }
    if is_addressed(event, id) {
        assert(all_requests(seq![event], id) =~= seq![crate::event_list::request_of(event)]);
    } else {
        assert(all_requests(seq![event], id) =~= Seq::<ActionRequest>::empty());
    }
}

proof fn lemma_filter_one(event: Event, keep: spec_fn(Event) -> bool)
    ensures
        seq![event].filter(keep) == if keep(event) {
            seq![event]
        } else {
            Seq::<Event>::empty()
        },
{
    reveal(Seq::filter);
    assert(seq![event].drop_last() =~= Seq::empty());
    assert(Seq::<Event>::empty().filter(keep) =~= Seq::empty());
    assert(Seq::<Event>::empty().push(event) =~= seq![event]);
}

/// What two lists hold together is what the first holds, followed by what the second holds.
pub proof fn lists_add_up(
    first: Seq<Event>,
    second: Seq<Event>,
    key: Key,
    pattern: Modifiers,
    id: Id,
    action: Action,
    filter: EventFilter,
)
    ensures
        presses(first + second, key) == presses(first, key) + presses(second, key),
        shortcuts(first + second, pattern, key) == shortcuts(first, pattern, key) + shortcuts(second, pattern, key),
        without_shortcuts(first + second, pattern, key) == without_shortcuts(first, pattern, key) + without_shortcuts(
            second,
            pattern,
            key,
        ),
        filtered(first + second, filter) == filtered(first, filter) + filtered(second, filter),
        requests(first + second, id, action) == requests(first, id, action) + requests(second, id, action),
        all_requests(first + second, id) == all_requests(first, id) + all_requests(second, id),
{
    Seq::filter_distributes_over_add(first, second, |event: Event| is_press(event, key));
    Seq::filter_distributes_over_add(first, second, |event: Event| is_shortcut(event, pattern, key));
    Seq::filter_distributes_over_add(first, second, |event: Event| !is_shortcut(event, pattern, key));
    Seq::filter_distributes_over_add(first, second, |event: Event| filter.matches(&event));
    Seq::filter_distributes_over_add(first, second, |event: Event| is_request(event, id, action));
    Seq::filter_distributes_over_add(first, second, |event: Event| is_addressed(event, id));
    assert(requests(first + second, id, action) =~= requests(first, id, action) + requests(second, id, action));
    assert(all_requests(first + second, id) =~= all_requests(first, id) + all_requests(second, id));
}

/// The answers to the requests of two lists are those to the first, followed by those to the second.
pub proof fn answers_are_given_in_order(first: Seq<Event>, second: Seq<Event>, id: Id, answers: Seq<bool>)
    requires
        all_requests(first, id).len() <= answers.len(),
    ensures
        without_answered(first + second, id, answers) == without_answered(first, id, answers) + without_answered(
            second,
            id,
            answers.skip(all_requests(first, id).len() as int),
        ),
    decreases second.len(),
{
    let n = all_requests(first, id).len() as int;
    let later = answers.skip(n);
    if second.len() == 0 {
        assert(first + second =~= first);
        assert(without_answered(first, id, answers) + Seq::<Event>::empty() =~= without_answered(first, id, answers));
    } else {
        let rest = second.drop_last();
        let event = second.last();
        assert((first + second).drop_last() =~= first + rest);
        answers_are_given_in_order(first, rest, id, answers);
        Seq::filter_distributes_over_add(first, rest, |event: Event| is_addressed(event, id));
        let k = addressed(rest, id).len() as int;
        assert(addressed(first + rest, id).len() == n + k);
        assert(crate::event_list::is_answered(later, k) == crate::event_list::is_answered(answers, n + k));
        let kept = without_answered(first, id, answers);
        let kept_later = without_answered(rest, id, later);
        assert((kept + kept_later).push(event) =~= kept + kept_later.push(event));
    }
}

/// A single event is consumed if and only if it is a request to the widget and the answer is `true`.
pub proof fn a_request_is_consumed_by_its_answer(event: Event, id: Id, answer: bool)
    ensures
        without_answered(seq![event], id, seq![answer]) == if answer && (event matches Event::AccessKitActionRequest(
            request,
        ) && request.target == id.value) {
            Seq::<Event>::empty()
        } else {
            seq![event]
        },
{
    reveal(Seq::filter);
    assert(seq![event].drop_last() =~= Seq::empty());
    assert(without_answered(Seq::empty(), id, seq![answer]) =~= Seq::empty());
    assert(Seq::<Event>::empty().push(event) =~= seq![event]);
}

/// A filter holds back the keys that move the focus, unless it lets them through, whether they are
/// pressed or released. It lets all else through.
pub proof fn filters_hold_back_focus_keys(filter: EventFilter, event: Event)
    ensures
        !(event is Key) ==> filter.matches(&event),
        event matches Event::Key { key, .. } ==> {
            &&& key == Key::Tab ==> filter.matches(&event) == filter.tab
            &&& key == Key::Escape ==> filter.matches(&event) == filter.escape
            &&& key == Key::ArrowLeft || key == Key::ArrowRight ==> filter.matches(&event) == filter.horizontal_arrows
            &&& key == Key::ArrowUp || key == Key::ArrowDown ==> filter.matches(&event) == filter.vertical_arrows
            &&& key != Key::Tab && key != Key::Escape && key != Key::ArrowLeft && key != Key::ArrowRight && key
                != Key::ArrowUp && key != Key::ArrowDown ==> filter.matches(&event)
        },
{
}

/// Every button has a place of its own.
pub proof fn buttons_have_places_of_their_own(a: PointerButton, b: PointerButton)
    ensures
        a.index() == b.index() <==> a == b,
        a.index() < 5,
{
}

} // verus!
