use vstd::prelude::*;
use crate::automata_impl::automaton::{Automaton, FiniteStateAutomaton};

verus! {

/// Transition trait for `DualStateMachine`: a self-consuming step function
/// over a separately owned mutable state. This is the union of
/// `ReferenceTransition` and `InternalTransition`, and the most general of
/// the three base machine forms.
pub trait DualTransition: Sized {
    /// The input type taken by the state machine.
    type Input;
    /// The type of the internal state of the state machine.
    type Internal;
    /// The action type returned by the state machine.
    type Action;

    /// What one step returns: the action, the replacement for self, and
    /// what it leaves in the internal state.
    spec fn step_spec(self, input: Self::Input, state: Self::Internal) -> (
        Self::Action,
        Self,
        Self::Internal,
    );

    /// Given references to the input and internal state, consume self,
    /// returning the action and the instance used to reconstitute the
    /// machine, possibly modifying the state.
    fn step(self, input: &Self::Input, state: &mut Self::Internal) -> (r: (Self::Action, Self))
        ensures
            (r.0, r.1, *final(state)) == self.step_spec(*input, *old(state)),
    ;
}

/// State machine combining the changing step functions of
/// `RefStateMachine` with the internal mutable state of
/// `InternalStateMachine`.
///
/// The step function is swapped out of the machine for the duration of its
/// own step; `inv` says that the slot is occupied, which every transition
/// preserves, so the empty slot is never observable.
pub struct DualStateMachine<C: DualTransition> {
    /// The step function consumed and replaced on each step.
    pub state_fn: Option<C>,
    /// The encapsulated internal state.
    pub internal: C::Internal,
}

impl<C: DualTransition> DualStateMachine<C> {
    /// Create a new dual state machine.
    pub fn new(calling_fn: C, init_state: C::Internal) -> (machine: Self)
        ensures
            machine == (DualStateMachine { state_fn: Some(calling_fn), internal: init_state }),
            machine.inv(),
    {
        DualStateMachine { state_fn: Some(calling_fn), internal: init_state }
    }
}

impl<C: DualTransition> Automaton for DualStateMachine<C> {
    type Input = C::Input;
    type Action = C::Action;

    open spec fn inv(self) -> bool {
        self.state_fn is Some
    }

    open spec fn step_ok(self, input: C::Input, action: C::Action, next: Self) -> bool {
        self.state_fn matches Some(c) && {
            let (a, c2, s2) = c.step_spec(input, self.internal);
            action == a && next == (DualStateMachine { state_fn: Some(c2), internal: s2 })
        }
    }

    fn transition(&mut self, input: &C::Input) -> (action: C::Action) {
        let state_fn = self.state_fn.take().unwrap();
        let (action, new_fn) = state_fn.step(input, &mut self.internal);
        self.state_fn = Some(new_fn);
        action
    }
}

impl<C: DualTransition + Copy> FiniteStateAutomaton for DualStateMachine<C> where
    C::Internal: Copy,
 {

}

impl<C: DualTransition + Copy> Clone for DualStateMachine<C> where C::Internal: Copy {
    fn clone(&self) -> (other: Self)
        ensures
            other == *self,
    {
        DualStateMachine { state_fn: self.state_fn, internal: self.internal }
    }
}

impl<C: DualTransition + Copy> Copy for DualStateMachine<C> where C::Internal: Copy {

}

} // verus!
