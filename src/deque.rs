//! The bounded double-ended queues of `heapless` that keep the diagnostic
//! histories, and what this library relies on of them.
use heapless::Deque;
use vstd::prelude::*;

use crate::{Event, State};

verus! {

pub const STATES_HISTORY_SIZE: usize = 5;

pub const EVENTS_HISTORY_SIZE: usize = 5;

/// `h` after appending `x` and, where that would make it longer than `cap`,
/// dropping its oldest element.
pub open spec fn push_bounded<A>(h: Seq<A>, x: A, cap: nat) -> Seq<A> {
    if h.len() < cap {
        h.push(x)
    } else {
        h.drop_first().push(x)
    }
}

#[verifier::external_type_specification]
#[verifier::external_body]
#[verifier::reject_recursive_types(T)]
pub struct ExDeque<T, const N: usize>(Deque<T, N>);

/// The states held by a deque, front first.
pub uninterp spec fn states_in(d: Deque<State, STATES_HISTORY_SIZE>) -> Seq<State>;

/// The events held by a deque, front first.
pub uninterp spec fn events_in(d: Deque<Event, EVENTS_HISTORY_SIZE>) -> Seq<Event>;

/// Relies on heapless::Deque::new: a new deque holds nothing.
#[verifier::external_body]
pub(crate) fn state_deque_new() -> (r: Deque<State, STATES_HISTORY_SIZE>)
    ensures
        states_in(r) == Seq::<State>::empty(),
{
    Deque::new()
}

/// Relies on heapless::Deque::is_full: true exactly when the length is the capacity.
#[verifier::external_body]
pub(crate) fn state_deque_is_full(d: &Deque<State, STATES_HISTORY_SIZE>) -> (r: bool)
    ensures
        r == (states_in(*d).len() == STATES_HISTORY_SIZE),
{
    d.is_full()
}

/// Relies on heapless::Deque::pop_front: removes and returns the front element.
#[verifier::external_body]
pub(crate) fn state_deque_pop_front(d: &mut Deque<State, STATES_HISTORY_SIZE>) -> (r: Option<State>)
    ensures
        states_in(*old(d)).len() == 0 ==> r is None && states_in(*final(d)) == states_in(*old(d)),
        states_in(*old(d)).len() > 0 ==> r == Some(states_in(*old(d))[0])
            && states_in(*final(d)) == states_in(*old(d)).drop_first(),
{
    d.pop_front()
}

/// Relies on heapless::Deque::push_back: appends at the back unless the deque is
/// full, in which case the item comes back and nothing changes.
#[verifier::external_body]
pub(crate) fn state_deque_push_back(d: &mut Deque<State, STATES_HISTORY_SIZE>, x: State) -> (r: Result<(), State>)
    ensures
        states_in(*old(d)).len() < STATES_HISTORY_SIZE ==> r is Ok
            && states_in(*final(d)) == states_in(*old(d)).push(x),
        states_in(*old(d)).len() >= STATES_HISTORY_SIZE ==> r is Err && r->Err_0 == x
            && states_in(*final(d)) == states_in(*old(d)),
{
    d.push_back(x)
}

/// Relies on heapless::Deque::iter: walks the elements front to back.
#[verifier::external_body]
pub(crate) fn state_deque_to_vec(d: &Deque<State, STATES_HISTORY_SIZE>) -> (r: Vec<State>)
    ensures
        r@ == states_in(*d),
{
    d.iter().copied().collect()
}

/// Relies on heapless::Deque::new: a new deque holds nothing.
#[verifier::external_body]
pub(crate) fn event_deque_new() -> (r: Deque<Event, EVENTS_HISTORY_SIZE>)
    ensures
        events_in(r) == Seq::<Event>::empty(),
{
    Deque::new()
}

/// Relies on heapless::Deque::is_full: true exactly when the length is the capacity.
#[verifier::external_body]
pub(crate) fn event_deque_is_full(d: &Deque<Event, EVENTS_HISTORY_SIZE>) -> (r: bool)
    ensures
        r == (events_in(*d).len() == EVENTS_HISTORY_SIZE),
{
    d.is_full()
}

/// Relies on heapless::Deque::pop_front: removes and returns the front element.
#[verifier::external_body]
pub(crate) fn event_deque_pop_front(d: &mut Deque<Event, EVENTS_HISTORY_SIZE>) -> (r: Option<Event>)
    ensures
        events_in(*old(d)).len() == 0 ==> r is None && events_in(*final(d)) == events_in(*old(d)),
        events_in(*old(d)).len() > 0 ==> r == Some(events_in(*old(d))[0])
            && events_in(*final(d)) == events_in(*old(d)).drop_first(),
{
    d.pop_front()
}

/// Relies on heapless::Deque::push_back: appends at the back unless the deque is
/// full, in which case the item comes back and nothing changes.
#[verifier::external_body]
pub(crate) fn event_deque_push_back(d: &mut Deque<Event, EVENTS_HISTORY_SIZE>, x: Event) -> (r: Result<(), Event>)
    ensures
        events_in(*old(d)).len() < EVENTS_HISTORY_SIZE ==> r is Ok
            && events_in(*final(d)) == events_in(*old(d)).push(x),
        events_in(*old(d)).len() >= EVENTS_HISTORY_SIZE ==> r is Err && r->Err_0 == x
            && events_in(*final(d)) == events_in(*old(d)),
{
    d.push_back(x)
}

/// Relies on heapless::Deque::iter: walks the elements front to back.
#[verifier::external_body]
pub(crate) fn event_deque_to_vec(d: &Deque<Event, EVENTS_HISTORY_SIZE>) -> (r: Vec<Event>)
    ensures
        r@ == events_in(*d),
{
    d.iter().copied().collect()
}

/// Appends `s` to a state history, first dropping the oldest entry when full.
pub(crate) fn push_state_bounded(d: &mut Deque<State, STATES_HISTORY_SIZE>, s: State)
    requires
        states_in(*old(d)).len() <= STATES_HISTORY_SIZE,
    ensures
        states_in(*final(d)) == push_bounded(states_in(*old(d)), s, STATES_HISTORY_SIZE as nat),
        states_in(*final(d)).len() <= STATES_HISTORY_SIZE,
{
    if state_deque_is_full(d) {
        let _ = state_deque_pop_front(d);
    }
    let _ = state_deque_push_back(d, s);
}

/// Appends `e` to an event history, first dropping the oldest entry when full.
pub(crate) fn push_event_bounded(d: &mut Deque<Event, EVENTS_HISTORY_SIZE>, e: Event)
    requires
        events_in(*old(d)).len() <= EVENTS_HISTORY_SIZE,
    ensures
        events_in(*final(d)) == push_bounded(events_in(*old(d)), e, EVENTS_HISTORY_SIZE as nat),
        events_in(*final(d)).len() <= EVENTS_HISTORY_SIZE,
{
    if event_deque_is_full(d) {
        let _ = event_deque_pop_front(d);
    }
    let _ = event_deque_push_back(d, e);
}

} // verus!
