use vstd::prelude::*;
use crate::automata_impl::automaton::Automaton;
use crate::behavior_tree::behavior_tree_node::{BehaviorTreeNode, NodeResult, Statepoint};

verus! {

/// Parallel decider: given the input and the vector of statepoints the
/// children reached this tick, decide whether to forward the vector or to
/// consume it and exit.
pub trait ParallelDecider: Sized {
    /// Type of the input to distribute among the parallel nodes.
    type Input;
    /// Type of the nonterminals returned by each of the parallel nodes.
    type Nonterm;
    /// Type of the terminals returned by each of the parallel nodes.
    type Term;
    /// Type of the terminal returned by the parallel node itself.
    type Exit;

    /// The decision relation: deciding on `states` may yield `result`.
    spec fn each_step_ok(
        self,
        input: Self::Input,
        states: Vec<Statepoint<Self::Nonterm, Self::Term>>,
        result: Statepoint<Vec<Statepoint<Self::Nonterm, Self::Term>>, Self::Exit>,
    ) -> bool;

    /// Given the input and the statepoint vector, return a statepoint of
    /// either that vector or a terminal value.
    fn each_step(&self, input: &Self::Input, states: Vec<Statepoint<Self::Nonterm, Self::Term>>)
        -> (result: Statepoint<Vec<Statepoint<Self::Nonterm, Self::Term>>, Self::Exit>)
        ensures
            self.each_step_ok(*input, states, result),
    ;
}

/// A parallel branch node: a decision policy on top of an automaton which
/// returns vectors of statepoints. The underlying automaton is typically a
/// fixed collection of node runners, all stepped with the same input in
/// index order, whose statepoints are collected into the vector the
/// decider inspects.
pub struct ParallelBranchNode<C, D> where
    C: Automaton<Input = D::Input, Action = Vec<Statepoint<D::Nonterm, D::Term>>>,
    D: ParallelDecider,
 {
    /// The automaton stepping the whole child collection at once.
    pub collection: C,
    /// The decision policy.
    pub decider: D,
}

impl<C, D> ParallelBranchNode<C, D> where
    C: Automaton<Input = D::Input, Action = Vec<Statepoint<D::Nonterm, D::Term>>>,
    D: ParallelDecider,
 {
    /// Create a new parallel branch node.
    pub fn new(decider: D, machine: C) -> (r: Self)
        ensures
            r == (ParallelBranchNode { collection: machine, decider }),
    {
        ParallelBranchNode { collection: machine, decider }
    }
}

impl<C, D> BehaviorTreeNode for ParallelBranchNode<C, D> where
    C: Automaton<Input = D::Input, Action = Vec<Statepoint<D::Nonterm, D::Term>>>,
    D: ParallelDecider,
 {
    type Input = D::Input;
    type Nonterminal = Vec<Statepoint<D::Nonterm, D::Term>>;
    type Terminal = D::Exit;

    open spec fn inv(self) -> bool {
        self.collection.inv()
    }

    open spec fn step_ok(
        self,
        input: D::Input,
        result: NodeResult<Self::Nonterminal, D::Exit, Self>,
    ) -> bool {
        exists|states: Vec<Statepoint<D::Nonterm, D::Term>>, c2: C, decision: Statepoint<
            Vec<Statepoint<D::Nonterm, D::Term>>,
            D::Exit,
        >|
            {
                &&& #[trigger] self.collection.step_ok(input, states, c2)
                &&& #[trigger] self.decider.each_step_ok(input, states, decision)
                &&& match decision {
                    Statepoint::Nonterminal(ret) => result == NodeResult::<Self::Nonterminal,
                    D::Exit, Self>::Nonterminal(
                        ret,
                        ParallelBranchNode { collection: c2, decider: self.decider },
                    ),
                    Statepoint::Terminal(t) => result == NodeResult::<Self::Nonterminal, D::Exit,
                    Self>::Terminal(t),
                }
            }
    }

    fn step(self, input: &D::Input) -> (result: NodeResult<Self::Nonterminal, D::Exit, Self>) {
        let mut coll = self.collection;
        let results = coll.transition(input);
        let decision = self.decider.each_step(input, results);
        match decision {
            Statepoint::Nonterminal(ret) => NodeResult::Nonterminal(
                ret,
                Self::new(self.decider, coll),
            ),
            Statepoint::Terminal(t) => NodeResult::Terminal(t),
        }
    }
}

} // verus!
