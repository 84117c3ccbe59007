use vstd::prelude::*;
use crate::automata_impl::automaton::{Automaton, FiniteStateAutomaton};
use crate::automata_impl::map_wrappers::InputMachineMap;

verus! {

/// "Automaton" whose purpose is to serve as a stateless mapping between its
/// input and output. Useful for plumbing state machines with incompatible
/// types together.
pub struct StatelessMapper<W: InputMachineMap> {
    /// The pure mapping applied to every input.
    pub mapper: W,
}

impl<W: InputMachineMap> StatelessMapper<W> {
    /// Create a new stateless mapper.
    pub fn new(mapper: W) -> (r: Self)
        ensures
            r == (StatelessMapper { mapper }),
    {
        StatelessMapper { mapper }
    }
}

impl<W: InputMachineMap> Automaton for StatelessMapper<W> {
    type Input = W::In;
    type Action = W::Out;

    open spec fn inv(self) -> bool {
        true
    }

    open spec fn step_ok(self, input: W::In, action: W::Out, next: Self) -> bool {
        action == self.mapper.map_spec(input) && next == self
    }

    fn transition(&mut self, input: &W::In) -> (action: W::Out) {
        self.mapper.input_transform(input)
    }
}

impl<W: InputMachineMap + Copy> FiniteStateAutomaton for StatelessMapper<W> {

}

impl<W: InputMachineMap + Copy> Clone for StatelessMapper<W> {
    fn clone(&self) -> (other: Self)
        ensures
            other == *self,
    {
        StatelessMapper { mapper: self.mapper }
    }
}

impl<W: InputMachineMap + Copy> Copy for StatelessMapper<W> {

}

} // verus!
