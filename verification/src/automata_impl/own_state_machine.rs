use vstd::prelude::*;
use crate::automata_impl::automaton::Automaton;

verus! {

/// Transition trait for `OwnStateMachine`: a boxed, self-consuming step.
/// Each step consumes the current value and returns the action together
/// with the boxed value to use for the next step.
pub trait OwnTransition: Sized {
    /// The input type taken by the state machine.
    type Input;
    /// The action type returned by the state machine.
    type Action;

    /// What one step returns: the action and the replacement state value.
    spec fn step_spec(self, input: Self::Input) -> (Self::Action, Self);

    /// Given a reference to the input, consume self, returning the action
    /// and the boxed instance used to reconstitute the machine.
    fn step(self, input: &Self::Input) -> (r: (Self::Action, Box<Self>))
        ensures
            (r.0, *r.1) == self.step_spec(*input),
    ;
}

/// State machine realized by a boxed consumable value. Each step, the
/// currently boxed value is consumed, returning an action and a new boxed
/// value to consume the next step. The indirection keeps the machine's
/// own size fixed however the state value grows.
///
/// The boxed value is swapped out of the machine for the duration of its
/// own step; `inv` says that the slot is occupied, which every transition
/// preserves, so the empty slot is never observable.
pub struct OwnStateMachine<C: OwnTransition> {
    /// The boxed state value consumed and replaced on each step.
    pub current_state: Option<Box<C>>,
}

impl<C: OwnTransition> OwnStateMachine<C> {
    /// Create a new boxed-state machine.
    pub fn new(init_state: Box<C>) -> (machine: Self)
        ensures
            machine == (OwnStateMachine { current_state: Some(init_state) }),
            machine.inv(),
    {
        OwnStateMachine { current_state: Some(init_state) }
    }
}

impl<C: OwnTransition> Automaton for OwnStateMachine<C> {
    type Input = C::Input;
    type Action = C::Action;

    open spec fn inv(self) -> bool {
        self.current_state is Some
    }

    open spec fn step_ok(self, input: C::Input, action: C::Action, next: Self) -> bool {
        self.current_state matches Some(b) && {
            let (a, c2) = (*b).step_spec(input);
            action == a && (next.current_state matches Some(b2) && *b2 == c2)
        }
    }

    fn transition(&mut self, input: &C::Input) -> (action: C::Action) {
        let boxed = self.current_state.take().unwrap();
        let state = *boxed;
        let (action, new_state) = state.step(input);
        self.current_state = Some(new_state);
        action
    }
}

} // verus!
