use heapless::Deque;
use vstd::prelude::*;

use crate::deque::{
    push_bounded, push_state_bounded, state_deque_new, state_deque_to_vec, states_in,
    STATES_HISTORY_SIZE,
};
use crate::State;

verus! {

/// The current state of the bridge and the last few states it went through.
pub struct StateHolder {
    history: Deque<State, STATES_HISTORY_SIZE>,
    state: State,
}

/// The history left by pushing every element of `xs`, in order, onto `h`, with
/// at most `cap` entries kept.
pub open spec fn pushes_bounded<A>(h: Seq<A>, xs: Seq<A>, cap: nat) -> Seq<A>
    decreases xs.len(),
{
    if xs.len() == 0 {
        h
    } else {
        push_bounded(pushes_bounded(h, xs.drop_last(), cap), xs.last(), cap)
    }
}

/// The last `min(|xs|, cap)` elements of `xs`.
pub open spec fn last_n<A>(xs: Seq<A>, cap: nat) -> Seq<A> {
    if xs.len() <= cap {
        xs
    } else {
        xs.subrange(xs.len() - cap, xs.len() as int)
    }
}

/// Starting from an empty history, any sequence of pushes leaves exactly the
/// last `cap` values pushed (all of them if fewer), oldest first.
pub proof fn lemma_history_keeps_last<A>(xs: Seq<A>, cap: nat)
    requires
        cap > 0,
    ensures
        pushes_bounded(Seq::<A>::empty(), xs, cap) == last_n(xs, cap),
    decreases xs.len(),
{
    if xs.len() > 0 {
        let init = xs.drop_last();
        lemma_history_keeps_last(init, cap);
        let p = pushes_bounded(Seq::<A>::empty(), init, cap);
        if init.len() < cap {
            assert(p.push(xs.last()) =~= xs);
        } else {
            assert(p.drop_first().push(xs.last()) =~= last_n(xs, cap));
        }
    }
}

impl StateHolder {
    pub closed spec fn wf(&self) -> bool {
        states_in(self.history).len() <= STATES_HISTORY_SIZE
    }

    pub closed spec fn current(&self) -> State {
        self.state
    }

    /// The recorded states, oldest first; the newest is the current state once
    /// any state has been set.
    pub closed spec fn history(&self) -> Seq<State> {
        states_in(self.history)
    }

    pub fn new() -> (r: Self)
        ensures
            r.wf(),
            r.current() == State::Idle,
            r.history() == Seq::<State>::empty(),
    {
        StateHolder { history: state_deque_new(), state: State::Idle }
    }

    /// Records `state` in the history, dropping the oldest entry when the history
    /// is full, then makes it the current state.
    pub fn set_state(&mut self, state: State)
        requires
            old(self).wf(),
        ensures
            final(self).wf(),
            final(self).current() == state,
            final(self).history() == push_bounded(old(self).history(), state, STATES_HISTORY_SIZE as nat),
    {
        push_state_bounded(&mut self.history, state);
        self.state = state;
    }

    pub fn get_state(&self) -> (r: State)
        ensures
            r == self.current(),
    {
        self.state
    }

    /// A copy of the recorded states, oldest first.
    pub fn get_history(&self) -> (r: Vec<State>)
        ensures
            r@ == self.history(),
            self.wf() ==> r@.len() <= STATES_HISTORY_SIZE,
    {
        state_deque_to_vec(&self.history)
    }
}

} // verus!
