use vstd::prelude::*;
use crate::automata_impl::automaton::Automaton;
use crate::automata_impl::internal_state_machine::InternalTransition;

verus! {

/// State machine over an encapsulated state whose step function is only
/// borrowed: several machines can share one step function value for as
/// long as it lives.
pub struct InternalAutomaton<'f, C: InternalTransition> {
    /// The encapsulated internal state.
    pub current_state: C::Internal,
    /// The borrowed step function.
    pub calling: &'f C,
}

impl<'f, C: InternalTransition> InternalAutomaton<'f, C> {
    /// Create a new internal automaton around a borrowed step function.
    pub fn new(init_state: C::Internal, to_call: &'f C) -> (machine: Self)
        ensures
            machine.current_state == init_state,
            machine.calling == to_call,
    {
        InternalAutomaton { current_state: init_state, calling: to_call }
    }

    /// Call the step function on the held state.
    pub fn step(&mut self, input: &C::Input) -> (action: C::Action)
        ensures
            (action, final(self).current_state) == (*old(self).calling).step_spec(
                *input,
                old(self).current_state,
            ),
            final(self).calling == old(self).calling,
    {
        self.calling.step(input, &mut self.current_state)
    }
}

impl<'f, C: InternalTransition> Automaton for InternalAutomaton<'f, C> {
    type Input = C::Input;
    type Action = C::Action;

    open spec fn inv(self) -> bool {
        true
    }

    open spec fn step_ok(self, input: C::Input, action: C::Action, next: Self) -> bool {
        let (a, s) = (*self.calling).step_spec(input, self.current_state);
        action == a && next == (InternalAutomaton { current_state: s, calling: self.calling })
    }

    fn transition(&mut self, input: &C::Input) -> (action: C::Action) {
        self.step(input)
    }
}

} // verus!
