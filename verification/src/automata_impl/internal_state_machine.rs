use vstd::prelude::*;
use crate::automata_impl::automaton::{Automaton, FiniteStateAutomaton};

verus! {

/// Transition trait for `InternalStateMachine`: a stateless step function
/// over an encapsulated state. `step_spec` is the mathematical description
/// of one step, and the executable `step` is proved to agree with it.
pub trait InternalTransition: Sized {
    /// The input type taken by the state machine.
    type Input;
    /// The type of the internal state of the state machine.
    type Internal;
    /// The action type returned by the state machine.
    type Action;

    /// What one step returns and what it leaves in the internal state.
    spec fn step_spec(self, input: Self::Input, state: Self::Internal) -> (
        Self::Action,
        Self::Internal,
    );

    /// Given references to the input and internal state, return the action,
    /// possibly modifying the state.
    fn step(&self, input: &Self::Input, state: &mut Self::Internal) -> (action: Self::Action)
        ensures
            (action, *final(state)) == self.step_spec(*input, *old(state)),
    ;
}

/// State machine realized by a stateless step function called on an
/// encapsulated state. Each tick, the step function is called with the input
/// and the current state, returning an action and possibly modifying the
/// state.
pub struct InternalStateMachine<C: InternalTransition> {
    /// The stateless step function.
    pub stepper: C,
    /// The encapsulated internal state.
    pub internal: C::Internal,
}

impl<C: InternalTransition> InternalStateMachine<C> {
    /// Create a new internal state machine.
    pub fn new(init: C, init_state: C::Internal) -> (machine: Self)
        ensures
            machine == (InternalStateMachine { stepper: init, internal: init_state }),
    {
        InternalStateMachine { stepper: init, internal: init_state }
    }
}

impl<C: InternalTransition> Automaton for InternalStateMachine<C> {
    type Input = C::Input;
    type Action = C::Action;

    open spec fn inv(self) -> bool {
        true
    }

    open spec fn step_ok(self, input: C::Input, action: C::Action, next: Self) -> bool {
        let (a, s) = self.stepper.step_spec(input, self.internal);
        action == a && next == (InternalStateMachine { stepper: self.stepper, internal: s })
    }

    fn transition(&mut self, input: &C::Input) -> (action: C::Action) {
        self.stepper.step(input, &mut self.internal)
    }
}

impl<C: InternalTransition + Copy> FiniteStateAutomaton for InternalStateMachine<C> where
    C::Internal: Copy,
 {

}

impl<C: InternalTransition + Copy> Clone for InternalStateMachine<C> where C::Internal: Copy {
    fn clone(&self) -> (other: Self)
        ensures
            other == *self,
    {
        InternalStateMachine { stepper: self.stepper, internal: self.internal }
    }
}

impl<C: InternalTransition + Copy> Copy for InternalStateMachine<C> where C::Internal: Copy {

}

} // verus!
