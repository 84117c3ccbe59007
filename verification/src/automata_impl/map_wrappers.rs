use vstd::prelude::*;
use crate::automata_impl::automaton::{Automaton, FiniteStateAutomaton, is_run};

verus! {

/// Mapping between different input types.
pub trait InputMachineMap: Sized {
    /// The input type for the input mapper, which is taken as the input
    /// type of the wrapper.
    type In;
    /// The output type for the input mapper, which is then fed into the
    /// enclosed automaton.
    type Out;

    /// The mathematical description of the mapping.
    spec fn map_spec(self, input: Self::In) -> Self::Out;

    /// Map between the input supplied and the value to feed into the
    /// enclosed automaton.
    fn input_transform(&self, input: &Self::In) -> (out: Self::Out)
        ensures
            out == self.map_spec(*input),
    ;
}

/// Wrapper for an automaton which converts between the provided input type
/// and the input type expected by the automaton.
pub struct InputMappedMachine<M, W> where M: Automaton, W: InputMachineMap<Out = M::Input> {
    /// The enclosed automaton.
    pub machine: M,
    /// The input mapper applied before each transition.
    pub wrapper: W,
}

impl<M, W> InputMappedMachine<M, W> where M: Automaton, W: InputMachineMap<Out = M::Input> {
    /// Create a new input mapped automaton.
    pub fn new(wrapper: W, machine: M) -> (r: Self)
        ensures
            r == (InputMappedMachine { machine, wrapper }),
    {
        InputMappedMachine { machine, wrapper }
    }
}

impl<M, W> Automaton for InputMappedMachine<M, W> where
    M: Automaton,
    W: InputMachineMap<Out = M::Input>,
 {
    type Input = W::In;
    type Action = M::Action;

    open spec fn inv(self) -> bool {
        self.machine.inv()
    }

    open spec fn step_ok(self, input: W::In, action: M::Action, next: Self) -> bool {
        &&& self.machine.step_ok(self.wrapper.map_spec(input), action, next.machine)
        &&& next.wrapper == self.wrapper
    }

    fn transition(&mut self, input: &W::In) -> (action: M::Action) {
        let mapped = self.wrapper.input_transform(input);
        self.machine.transition(&mapped)
    }
}

impl<M, W> FiniteStateAutomaton for InputMappedMachine<M, W> where
    M: FiniteStateAutomaton,
    W: InputMachineMap<Out = M::Input> + Copy,
 {

}

impl<M, W> Clone for InputMappedMachine<M, W> where
    M: FiniteStateAutomaton,
    W: InputMachineMap<Out = M::Input> + Copy,
 {
    fn clone(&self) -> (other: Self)
        ensures
            other == *self,
    {
        InputMappedMachine { machine: self.machine, wrapper: self.wrapper }
    }
}

impl<M, W> Copy for InputMappedMachine<M, W> where
    M: FiniteStateAutomaton,
    W: InputMachineMap<Out = M::Input> + Copy,
 {

}

/// Mapping between different output types.
pub trait OutputMachineMap: Sized {
    /// The input type for the output mapper, received from the enclosed
    /// automaton.
    type In;
    /// The output type for the output mapper, which is the type returned by
    /// the wrapper.
    type Out;

    /// The mathematical description of the mapping.
    spec fn map_spec(self, action: Self::In) -> Self::Out;

    /// Map between the action returned by the automaton and the action to
    /// return.
    fn output_transform(&self, action: Self::In) -> (out: Self::Out)
        ensures
            out == self.map_spec(action),
    ;
}

/// Wrapper for an automaton which converts between the actions emitted by
/// the automaton and the ones exposed by the wrapper.
pub struct OutputMappedMachine<M, W> where M: Automaton, W: OutputMachineMap<In = M::Action> {
    /// The enclosed automaton.
    pub machine: M,
    /// The output mapper applied after each transition.
    pub wrapper: W,
}

impl<M, W> OutputMappedMachine<M, W> where M: Automaton, W: OutputMachineMap<In = M::Action> {
    /// Create a new output mapped automaton.
    pub fn new(outer: W, machine: M) -> (r: Self)
        ensures
            r == (OutputMappedMachine { machine, wrapper: outer }),
    {
        OutputMappedMachine { machine, wrapper: outer }
    }
}

impl<M, W> Automaton for OutputMappedMachine<M, W> where
    M: Automaton,
    W: OutputMachineMap<In = M::Action>,
 {
    type Input = M::Input;
    type Action = W::Out;

    open spec fn inv(self) -> bool {
        self.machine.inv()
    }

    open spec fn step_ok(self, input: M::Input, action: W::Out, next: Self) -> bool {
        &&& exists|mid: M::Action|
            (#[trigger] self.machine.step_ok(input, mid, next.machine)) && action
                == self.wrapper.map_spec(mid)
        &&& next.wrapper == self.wrapper
    }

    fn transition(&mut self, input: &M::Input) -> (action: W::Out) {
        let mid = self.machine.transition(input);
        self.wrapper.output_transform(mid)
    }
}

impl<M, W> FiniteStateAutomaton for OutputMappedMachine<M, W> where
    M: FiniteStateAutomaton,
    W: OutputMachineMap<In = M::Action> + Copy,
 {

}

impl<M, W> Clone for OutputMappedMachine<M, W> where
    M: FiniteStateAutomaton,
    W: OutputMachineMap<In = M::Action> + Copy,
 {
    fn clone(&self) -> (other: Self)
        ensures
            other == *self,
    {
        OutputMappedMachine { machine: self.machine, wrapper: self.wrapper }
    }
}

impl<M, W> Copy for OutputMappedMachine<M, W> where
    M: FiniteStateAutomaton,
    W: OutputMachineMap<In = M::Action> + Copy,
 {

}

/// Lazy constructor for an automaton, depending on the first input.
pub trait LazyConstructor: Sized {
    /// Type of the automaton to create.
    type Creates: Automaton;

    /// The machine that construction from a given first input yields.
    spec fn create_spec(self, input: <Self::Creates as Automaton>::Input) -> Self::Creates;

    /// Create a new automaton from the first input.
    fn create(&self, input: &<Self::Creates as Automaton>::Input) -> (machine: Self::Creates)
        ensures
            machine == self.create_spec(*input),
            machine.inv(),
    ;
}

/// The state of a lazily constructed machine: either the machine itself, or
/// the still pending constructor.
#[verifier::reject_recursive_types(M)]
#[verifier::reject_recursive_types(C)]
pub enum LazyConstructedInner<M, C> where M: Automaton, C: LazyConstructor<Creates = M> {
    /// The machine has been constructed.
    Machine(M),
    /// Construction is pending until the first input arrives.
    Pending(C),
}

/// Wrapper for a machine which defers initialization until the first input
/// is supplied, after which the machine is constructed using this input as
/// a parameter. The constructing input is also fed through the fresh
/// machine as its first transition, exactly once.
///
/// The inner state is swapped out of the wrapper for the duration of each
/// step; `inv` says that the slot is occupied, which every transition
/// preserves, so the empty slot is never observable.
#[verifier::reject_recursive_types(M)]
#[verifier::reject_recursive_types(C)]
pub struct LazyConstructedMachine<M, C> where M: Automaton, C: LazyConstructor<Creates = M> {
    /// The machine, or the pending constructor.
    pub internal: Option<LazyConstructedInner<M, C>>,
}

impl<M, C> LazyConstructedMachine<M, C> where M: Automaton, C: LazyConstructor<Creates = M> {
    /// Create a new lazily constructed automaton.
    pub fn new(construct: C) -> (r: Self)
        ensures
            r == (LazyConstructedMachine::<M, C> {
                internal: Some(LazyConstructedInner::Pending(construct)),
            }),
            r.inv(),
    {
        LazyConstructedMachine { internal: Some(LazyConstructedInner::Pending(construct)) }
    }

    /// Wrap an existing automaton in the lazily constructed automaton
    /// wrapper.
    pub fn from_existing(machine: M) -> (r: Self)
        requires
            machine.inv(),
        ensures
            r == (LazyConstructedMachine::<M, C> {
                internal: Some(LazyConstructedInner::Machine(machine)),
            }),
            r.inv(),
    {
        LazyConstructedMachine { internal: Some(LazyConstructedInner::Machine(machine)) }
    }
}

impl<M, C> Automaton for LazyConstructedMachine<M, C> where
    M: Automaton,
    C: LazyConstructor<Creates = M>,
 {
    type Input = M::Input;
    type Action = M::Action;

    open spec fn inv(self) -> bool {
        match self.internal {
            Some(LazyConstructedInner::Machine(m)) => m.inv(),
            Some(LazyConstructedInner::Pending(_)) => true,
            None => false,
        }
    }

    open spec fn step_ok(self, input: M::Input, action: M::Action, next: Self) -> bool {
        match self.internal {
            Some(LazyConstructedInner::Machine(m)) => next.internal matches Some(
                LazyConstructedInner::Machine(m2),
            ) && m.step_ok(input, action, m2),
            Some(LazyConstructedInner::Pending(c)) => next.internal matches Some(
                LazyConstructedInner::Machine(m2),
            ) && c.create_spec(input).step_ok(input, action, m2),
            None => false,
        }
    }

    fn transition(&mut self, input: &M::Input) -> (action: M::Action) {
        let mut machine = match self.internal.take().unwrap() {
            LazyConstructedInner::Machine(m) => m,
            LazyConstructedInner::Pending(c) => c.create(input),
        };
        let action = machine.transition(input);
        self.internal = Some(LazyConstructedInner::Machine(machine));
        action
    }
}

impl<M, C> Clone for LazyConstructedInner<M, C> where
    M: FiniteStateAutomaton,
    C: LazyConstructor<Creates = M> + Copy,
 {
    fn clone(&self) -> (other: Self)
        ensures
            other == *self,
    {
        match self {
            LazyConstructedInner::Machine(m) => LazyConstructedInner::Machine(*m),
            LazyConstructedInner::Pending(c) => LazyConstructedInner::Pending(*c),
        }
    }
}

impl<M, C> Copy for LazyConstructedInner<M, C> where
    M: FiniteStateAutomaton,
    C: LazyConstructor<Creates = M> + Copy,
 {

}

impl<M, C> Clone for LazyConstructedMachine<M, C> where
    M: FiniteStateAutomaton,
    C: LazyConstructor<Creates = M> + Copy,
 {
    fn clone(&self) -> (other: Self)
        ensures
            other == *self,
    {
        LazyConstructedMachine { internal: self.internal }
    }
}

impl<M, C> Copy for LazyConstructedMachine<M, C> where
    M: FiniteStateAutomaton,
    C: LazyConstructor<Creates = M> + Copy,
 {

}

impl<M, C> FiniteStateAutomaton for LazyConstructedMachine<M, C> where
    M: FiniteStateAutomaton,
    C: LazyConstructor<Creates = M> + Copy,
 {

}

/// The machine a lazily constructed wrapper holds, once construction has
/// happened.
pub open spec fn lazy_held_machine<M, C>(s: LazyConstructedMachine<M, C>) -> M where
    M: Automaton,
    C: LazyConstructor<Creates = M>,
{
    match s.internal {
        Some(LazyConstructedInner::Machine(m)) => m,
        _ => arbitrary(),
    }
}

/// Lazy construction defers nothing but the build: a freshly wrapped
/// constructor, run on inputs `i0, i1, i2, ...`, behaves exactly as the
/// machine the constructor yields for `i0`, itself run on `i0, i1, i2,
/// ...` — the constructing input parametrizes construction and is then
/// also fed through the fresh machine, exactly once.
pub proof fn lemma_lazy_run<M, C>(
    states: Seq<LazyConstructedMachine<M, C>>,
    inputs: Seq<M::Input>,
    actions: Seq<M::Action>,
    construct: C,
) where M: Automaton, C: LazyConstructor<Creates = M>
    requires
        is_run(states, inputs, actions),
        inputs.len() > 0,
        states[0].internal == Some(LazyConstructedInner::<M, C>::Pending(construct)),
    ensures
        is_run(
            Seq::new(
                states.len(),
                |j: int|
                    if j == 0 {
                        construct.create_spec(inputs[0])
                    } else {
                        lazy_held_machine(states[j])
                    },
            ),
            inputs,
            actions,
        ),
{
    let machines = Seq::new(
        states.len(),
        |j: int|
            if j == 0 {
                construct.create_spec(inputs[0])
            } else {
                lazy_held_machine(states[j])
            },
    );
    assert forall|j: int| 0 <= j < inputs.len() implies #[trigger] machines[j].step_ok(
        inputs[j],
        actions[j],
        machines[j + 1],
    ) by {
        assert(states[j].step_ok(inputs[j], actions[j], states[j + 1]));
        if j > 0 {
            let k = j - 1;
            assert(states[k].step_ok(inputs[k], actions[k], states[k + 1]));
        }
    }
}

/// Eager constructor for an automaton.
pub trait CustomConstructor: Sized {
    /// Type of the automaton to create.
    type Creates: Automaton;

    /// The machine that construction yields.
    spec fn create_spec(self) -> Self::Creates;

    /// Create a new automaton.
    fn create(&self) -> (machine: Self::Creates)
        ensures
            machine == self.create_spec(),
            machine.inv(),
    ;
}

/// Wrapper for an automaton which designates a default constructor for that
/// automaton, constructing it from the constructor.
#[verifier::reject_recursive_types(M)]
#[verifier::reject_recursive_types(C)]
pub struct CustomConstructedMachine<M, C> where M: Automaton, C: CustomConstructor<Creates = M> {
    /// The enclosed automaton.
    pub machine: M,
    /// The constructor type is part of the wrapper's identity only.
    pub constructor: core::marker::PhantomData<C>,
}

impl<M, C> CustomConstructedMachine<M, C> where M: Automaton, C: CustomConstructor<Creates = M> {
    /// Create a new custom constructed automaton.
    pub fn new(constructor: &C) -> (r: Self)
        ensures
            r.machine == constructor.create_spec(),
            r.machine.inv(),
    {
        CustomConstructedMachine {
            machine: constructor.create(),
            constructor: core::marker::PhantomData,
        }
    }

    /// Wrap an existing automaton in the custom constructed automaton
    /// wrapper.
    pub fn from_existing(machine: M) -> (r: Self)
        ensures
            r.machine == machine,
    {
        CustomConstructedMachine { machine, constructor: core::marker::PhantomData }
    }
}

impl<M, C> Automaton for CustomConstructedMachine<M, C> where
    M: Automaton,
    C: CustomConstructor<Creates = M>,
 {
    type Input = M::Input;
    type Action = M::Action;

    open spec fn inv(self) -> bool {
        self.machine.inv()
    }

    open spec fn step_ok(self, input: M::Input, action: M::Action, next: Self) -> bool {
        self.machine.step_ok(input, action, next.machine)
    }

    fn transition(&mut self, input: &M::Input) -> (action: M::Action) {
        self.machine.transition(input)
    }
}

impl<M, C> Clone for CustomConstructedMachine<M, C> where
    M: FiniteStateAutomaton,
    C: CustomConstructor<Creates = M>,
 {
    fn clone(&self) -> (other: Self)
        ensures
            other == *self,
    {
        CustomConstructedMachine { machine: self.machine, constructor: core::marker::PhantomData }
    }
}

impl<M, C> Copy for CustomConstructedMachine<M, C> where
    M: FiniteStateAutomaton,
    C: CustomConstructor<Creates = M>,
 {

}

impl<M, C> FiniteStateAutomaton for CustomConstructedMachine<M, C> where
    M: FiniteStateAutomaton,
    C: CustomConstructor<Creates = M>,
 {

}

} // verus!
