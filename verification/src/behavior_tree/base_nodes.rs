use vstd::prelude::*;
use crate::automata_impl::automaton::Automaton;
use crate::behavior_tree::behavior_tree_node::{BehaviorTreeNode, NodeResult, Statepoint};

verus! {

/// A pure function of the input that classifies each tick as nonterminal
/// or terminal, driving a `PredicateWait` node.
pub trait WaitCondition: Sized {
    /// The input type taken by the node.
    type Input;
    /// The nonterminal type returned by the node.
    type Nonterminal;
    /// The terminal type returned by the node.
    type Terminal;

    /// The mathematical description of the classification.
    spec fn end_spec(self, input: Self::Input) -> Statepoint<Self::Nonterminal, Self::Terminal>;

    /// Classify the input as a nonterminal or terminal state.
    fn do_end(&self, input: &Self::Input) -> (r: Statepoint<Self::Nonterminal, Self::Terminal>)
        ensures
            r == self.end_spec(*input),
    ;
}

/// Node whose function is to stall within itself until a function of its
/// input returns a terminal state, then terminates at that state.
pub struct PredicateWait<C: WaitCondition> {
    /// The condition consulted on every tick.
    pub condition: C,
}

impl<C: WaitCondition> PredicateWait<C> {
    /// Create a new predicate wait node.
    pub fn new(condition: C) -> (r: Self)
        ensures
            r == (PredicateWait { condition }),
    {
        PredicateWait { condition }
    }
}

impl<C: WaitCondition> BehaviorTreeNode for PredicateWait<C> {
    type Input = C::Input;
    type Nonterminal = C::Nonterminal;
    type Terminal = C::Terminal;

    open spec fn inv(self) -> bool {
        true
    }

    open spec fn step_ok(
        self,
        input: C::Input,
        result: NodeResult<C::Nonterminal, C::Terminal, Self>,
    ) -> bool {
        match self.condition.end_spec(input) {
            Statepoint::Nonterminal(n) => result == NodeResult::<C::Nonterminal, C::Terminal,
            Self>::Nonterminal(n, self),
            Statepoint::Terminal(t) => result == NodeResult::<C::Nonterminal, C::Terminal,
            Self>::Terminal(t),
        }
    }

    fn step(self, input: &C::Input) -> (result: NodeResult<C::Nonterminal, C::Terminal, Self>) {
        match self.condition.do_end(input) {
            Statepoint::Terminal(t) => NodeResult::Terminal(t),
            Statepoint::Nonterminal(n) => NodeResult::Nonterminal(n, self),
        }
    }
}

/// A pure function of the input, driving an `Evaluation` or `CallLoop`
/// node.
pub trait CallWrapper: Sized {
    /// The input type taken by the node.
    type Input;
    /// The output type of the call.
    type Output;

    /// The mathematical description of the call.
    spec fn call_spec(self, input: Self::Input) -> Self::Output;

    /// Compute the output from the input.
    fn call(&self, input: &Self::Input) -> (r: Self::Output)
        ensures
            r == self.call_spec(*input),
    ;
}

/// Node which calls a function wrapper with its input, immediately
/// terminating with its return value.
pub struct Evaluation<C: CallWrapper> {
    /// The function called on the node's single tick.
    pub closure: C,
}

impl<C: CallWrapper> Evaluation<C> {
    /// Create a new evaluation node.
    pub fn new(closure: C) -> (r: Self)
        ensures
            r == (Evaluation { closure }),
    {
        Evaluation { closure }
    }
}

impl<C: CallWrapper> BehaviorTreeNode for Evaluation<C> {
    type Input = C::Input;
    type Nonterminal = ();
    type Terminal = C::Output;

    open spec fn inv(self) -> bool {
        true
    }

    open spec fn step_ok(
        self,
        input: C::Input,
        result: NodeResult<(), C::Output, Self>,
    ) -> bool {
        result == NodeResult::<(), C::Output, Self>::Terminal(self.closure.call_spec(input))
    }

    fn step(self, input: &C::Input) -> (result: NodeResult<(), C::Output, Self>) {
        NodeResult::Terminal(self.closure.call(input))
    }
}

/// Node which calls a function wrapper with its input on every tick,
/// yielding its return value as a nonterminal, indefinitely.
pub struct CallLoop<C: CallWrapper> {
    /// The function called on every tick.
    pub closure: C,
}

impl<C: CallWrapper> CallLoop<C> {
    /// Create a new call loop node.
    pub fn new(closure: C) -> (r: Self)
        ensures
            r == (CallLoop { closure }),
    {
        CallLoop { closure }
    }
}

impl<C: CallWrapper> BehaviorTreeNode for CallLoop<C> {
    type Input = C::Input;
    type Nonterminal = C::Output;
    type Terminal = ();

    open spec fn inv(self) -> bool {
        true
    }

    open spec fn step_ok(
        self,
        input: C::Input,
        result: NodeResult<C::Output, (), Self>,
    ) -> bool {
        result == NodeResult::<C::Output, (), Self>::Nonterminal(
            self.closure.call_spec(input),
            self,
        )
    }

    fn step(self, input: &C::Input) -> (result: NodeResult<C::Output, (), Self>) {
        NodeResult::Nonterminal(self.closure.call(input), self)
    }
}

/// Node wrapper for an automaton whose action type is a statepoint: a
/// nonterminal action is forwarded along with the updated machine, and a
/// terminal action ends the node, dropping the machine.
#[verifier::reject_recursive_types(N)]
#[verifier::reject_recursive_types(T)]
pub struct MachineWrapper<M, N, T> where M: Automaton<Action = Statepoint<N, T>> {
    /// The wrapped automaton.
    pub machine: M,
    /// The statepoint types are part of the wrapper's identity only.
    pub statepoint: core::marker::PhantomData<(N, T)>,
}

impl<M, N, T> MachineWrapper<M, N, T> where M: Automaton<Action = Statepoint<N, T>> {
    /// Create a new machine wrapping node.
    pub fn new(machine: M) -> (r: Self)
        ensures
            r.machine == machine,
    {
        MachineWrapper { machine, statepoint: core::marker::PhantomData }
    }
}

impl<M, N, T> BehaviorTreeNode for MachineWrapper<M, N, T> where
    M: Automaton<Action = Statepoint<N, T>>,
 {
    type Input = M::Input;
    type Nonterminal = N;
    type Terminal = T;

    open spec fn inv(self) -> bool {
        self.machine.inv()
    }

    open spec fn step_ok(self, input: M::Input, result: NodeResult<N, T, Self>) -> bool {
        exists|sp: Statepoint<N, T>, m2: M|
            (#[trigger] self.machine.step_ok(input, sp, m2)) && (match sp {
                Statepoint::Nonterminal(n) => result == NodeResult::<N, T, Self>::Nonterminal(
                    n,
                    MachineWrapper { machine: m2, statepoint: core::marker::PhantomData },
                ),
                Statepoint::Terminal(t) => result == NodeResult::<N, T, Self>::Terminal(t),
            })
    }

    fn step(self, input: &M::Input) -> (result: NodeResult<N, T, Self>) {
        let mut mach = self;
        match mach.machine.transition(input) {
            Statepoint::Nonterminal(thing) => NodeResult::Nonterminal(thing, mach),
            Statepoint::Terminal(thing) => NodeResult::Terminal(thing),
        }
    }
}

/// Node wrapper for an automaton which yields the machine's action as a
/// nonterminal on every tick, indefinitely.
pub struct MachineLoop<M> where M: Automaton {
    /// The wrapped automaton.
    pub machine: M,
}

impl<M> MachineLoop<M> where M: Automaton {
    /// Create a new machine wrapping node.
    pub fn new(machine: M) -> (r: Self)
        ensures
            r == (MachineLoop { machine }),
    {
        MachineLoop { machine }
    }
}

impl<M> BehaviorTreeNode for MachineLoop<M> where M: Automaton {
    type Input = M::Input;
    type Nonterminal = M::Action;
    type Terminal = ();

    open spec fn inv(self) -> bool {
        self.machine.inv()
    }

    open spec fn step_ok(self, input: M::Input, result: NodeResult<M::Action, (), Self>) -> bool {
        exists|action: M::Action, m2: M|
            (#[trigger] self.machine.step_ok(input, action, m2)) && result
                == NodeResult::<M::Action, (), Self>::Nonterminal(action, MachineLoop { machine: m2 })
    }

    fn step(self, input: &M::Input) -> (result: NodeResult<M::Action, (), Self>) {
        let mut mut_self = self;
        let action = mut_self.machine.transition(input);
        NodeResult::Nonterminal(action, mut_self)
    }
}

} // verus!
