use vstd::prelude::*;

verus! {

/// An automaton is an agent which, once per tick, takes an input by
/// reference, updates its internal state, and returns an action.
///
/// The trait couples the executable `transition` method with a
/// specification of its behaviour: `step_ok` is the transition relation of
/// the machine, and `transition` is proved to satisfy it. A deterministic
/// machine defines `step_ok` as an equation that pins the action and the
/// next state down as a function of the previous state and the input, so
/// callers can compute the whole evolution of the machine in specifications.
pub trait Automaton: Sized {
    /// The input type taken by the automaton.
    type Input;
    /// The action type returned by the automaton.
    type Action;

    /// Well-formedness of the machine state; established by constructors and
    /// preserved by every transition.
    spec fn inv(self) -> bool;

    /// The transition relation: stepping the machine with `input` may yield
    /// `action` and leave the machine in state `next`.
    spec fn step_ok(self, input: Self::Input, action: Self::Action, next: Self) -> bool;

    /// Take an input by reference, change state, and return an action.
    fn transition(&mut self, input: &Self::Input) -> (action: Self::Action)
        requires
            old(self).inv(),
        ensures
            final(self).inv(),
            old(self).step_ok(*input, action, *final(self)),
    ;
}

/// Marker trait for finite state automata: automata that occupy fixed
/// memory and may be duplicated freely. Duplicating one yields two machines
/// whose subsequent evolutions are independent, and identical until they
/// receive different inputs.
pub trait FiniteStateAutomaton: Automaton + Copy {

}

/// A run of an automaton: `states` starts from the initial machine and holds
/// one entry per tick thereafter, `inputs[j]` is the input of tick `j`, and
/// `actions[j]` the action the machine returned on that tick, each step
/// related by the machine's transition relation.
pub open spec fn is_run<M: Automaton>(
    states: Seq<M>,
    inputs: Seq<M::Input>,
    actions: Seq<M::Action>,
) -> bool {
    &&& states.len() == inputs.len() + 1
    &&& actions.len() == inputs.len()
    &&& forall|j: int|
        0 <= j < inputs.len() ==> #[trigger] states[j].step_ok(inputs[j], actions[j], states[j + 1])
}

} // verus!
