use vstd::prelude::*;
use crate::automata_impl::automaton::{Automaton, FiniteStateAutomaton};

verus! {

/// Transition trait for `RefStateMachine`: a self-consuming step. The
/// "self" value is the whole state of the machine; each step consumes it
/// and returns the action together with the value to use for the next step.
pub trait ReferenceTransition: Sized {
    /// The input type taken by the state machine.
    type Input;
    /// The action type returned by the state machine.
    type Action;

    /// What one step returns: the action and the replacement state value.
    spec fn step_spec(self, input: Self::Input) -> (Self::Action, Self);

    /// Given a reference to the input, consume self, returning the action
    /// and the instance used to reconstitute the machine.
    fn step(self, input: &Self::Input) -> (r: (Self::Action, Self))
        ensures
            r == self.step_spec(*input),
    ;
}

/// State machine realized by a self-contained, self-consuming value. Each
/// tick, the currently held value is consumed, returning an action and the
/// new value to consume on the next tick.
///
/// The held value is swapped out of the machine for the duration of its own
/// step; `inv` says that the slot is occupied, which every transition
/// preserves, so the empty slot is never observable.
pub struct RefStateMachine<C: ReferenceTransition> {
    /// The state value consumed and replaced on each step.
    pub current_state: Option<C>,
}

impl<C: ReferenceTransition> RefStateMachine<C> {
    /// Create a new reference state machine.
    pub fn new(init_state: C) -> (machine: Self)
        ensures
            machine == (RefStateMachine { current_state: Some(init_state) }),
            machine.inv(),
    {
        RefStateMachine { current_state: Some(init_state) }
    }
}

impl<C: ReferenceTransition> Automaton for RefStateMachine<C> {
    type Input = C::Input;
    type Action = C::Action;

    open spec fn inv(self) -> bool {
        self.current_state is Some
    }

    open spec fn step_ok(self, input: C::Input, action: C::Action, next: Self) -> bool {
        self.current_state matches Some(c) && {
            let (a, c2) = c.step_spec(input);
            action == a && next == (RefStateMachine { current_state: Some(c2) })
        }
    }

    fn transition(&mut self, input: &C::Input) -> (action: C::Action) {
        let state = self.current_state.take().unwrap();
        let (action, new_state) = state.step(input);
        self.current_state = Some(new_state);
        action
    }
}

impl<C: ReferenceTransition + Copy> FiniteStateAutomaton for RefStateMachine<C> {

}

impl<C: ReferenceTransition + Copy> Clone for RefStateMachine<C> {
    fn clone(&self) -> (other: Self)
        ensures
            other == *self,
    {
        RefStateMachine { current_state: self.current_state }
    }
}

impl<C: ReferenceTransition + Copy> Copy for RefStateMachine<C> {

}

} // verus!
