use vstd::prelude::*;
use crate::behavior_tree::behavior_tree_node::{BehaviorTreeNode, NodeResult};

verus! {

/// Enumeration of the possible decisions when the live child reaches a
/// nonterminal state; a transition decision carries the replacement child
/// to install.
pub enum NontermDecision<A, B, X> {
    /// Step the current child.
    Step,
    /// Switch to the carried child of the first kind.
    TransA(A),
    /// Switch to the carried child of the second kind.
    TransB(B),
    /// Exit the supernode entirely.
    Exit(X),
}

/// Enumeration of the possible decisions when the live child reaches a
/// terminal state: a terminal child always causes at least a switch, to
/// the carried replacement, or an exit.
pub enum TermDecision<A, B, X> {
    /// Switch to the carried child of the first kind.
    TransA(A),
    /// Switch to the carried child of the second kind.
    TransB(B),
    /// Exit the supernode entirely.
    Exit(X),
}

/// Return type of the serial node: which child kind was live and the
/// statepoint it reached.
#[verifier::reject_recursive_types(A)]
#[verifier::reject_recursive_types(B)]
pub enum NontermReturn<A, B> where A: BehaviorTreeNode, B: BehaviorTreeNode {
    /// Nonterminal of the first child kind.
    NontermA(A::Nonterminal),
    /// Nonterminal of the second child kind.
    NontermB(B::Nonterminal),
    /// Terminal of the first child kind.
    TermA(A::Terminal),
    /// Terminal of the second child kind.
    TermB(B::Terminal),
}

/// The decision policy of a two-kinded serial node, consulted after every
/// child step.
pub trait SerialBranchDecider<A, B, E> where A: BehaviorTreeNode, B: BehaviorTreeNode {
    /// The mathematical description of the decision on a nonterminal of
    /// the first kind.
    spec fn a_nonterm_spec(statept: A::Nonterminal) -> NontermDecision<A, B, E>;

    /// The mathematical description of the decision on a nonterminal of
    /// the second kind.
    spec fn b_nonterm_spec(statept: B::Nonterminal) -> NontermDecision<A, B, E>;

    /// The mathematical description of the decision on a terminal of the
    /// first kind.
    spec fn a_term_spec(statept: A::Terminal) -> TermDecision<A, B, E>;

    /// The mathematical description of the decision on a terminal of the
    /// second kind.
    spec fn b_term_spec(statept: B::Terminal) -> TermDecision<A, B, E>;

    /// Decide what to do after a nonterminal of the first kind.
    fn on_a_nonterminal(statept: &A::Nonterminal) -> (d: NontermDecision<A, B, E>)
        ensures
            d == Self::a_nonterm_spec(*statept),
            d matches NontermDecision::TransA(n) ==> n.inv(),
            d matches NontermDecision::TransB(n) ==> n.inv(),
    ;

    /// Decide what to do after a nonterminal of the second kind.
    fn on_b_nonterminal(statept: &B::Nonterminal) -> (d: NontermDecision<A, B, E>)
        ensures
            d == Self::b_nonterm_spec(*statept),
            d matches NontermDecision::TransA(n) ==> n.inv(),
            d matches NontermDecision::TransB(n) ==> n.inv(),
    ;

    /// Decide what to do after a terminal of the first kind.
    fn on_a_terminal(statept: &A::Terminal) -> (d: TermDecision<A, B, E>)
        ensures
            d == Self::a_term_spec(*statept),
            d matches TermDecision::TransA(n) ==> n.inv(),
            d matches TermDecision::TransB(n) ==> n.inv(),
    ;

    /// Decide what to do after a terminal of the second kind.
    fn on_b_terminal(statept: &B::Terminal) -> (d: TermDecision<A, B, E>)
        ensures
            d == Self::b_term_spec(*statept),
            d matches TermDecision::TransA(n) ==> n.inv(),
            d matches TermDecision::TransB(n) ==> n.inv(),
    ;
}

/// A serial node over exactly two child kinds with a common input type:
/// it owns one live child of either kind, and the decision policy keeps,
/// switches, or exits after every child step.
#[verifier::reject_recursive_types(I)]
#[verifier::reject_recursive_types(E)]
#[verifier::reject_recursive_types(D)]
pub enum HeterogeneousSerialNode<I, A, B, E, D> where
    A: BehaviorTreeNode<Input = I>,
    B: BehaviorTreeNode<Input = I>,
    D: SerialBranchDecider<A, B, E>,
 {
    /// The live child is of the first kind.
    A(A, core::marker::PhantomData<(I, E, D)>),
    /// The live child is of the second kind.
    B(B, core::marker::PhantomData<(I, E, D)>),
}

impl<I, A, B, E, D> HeterogeneousSerialNode<I, A, B, E, D> where
    A: BehaviorTreeNode<Input = I>,
    B: BehaviorTreeNode<Input = I>,
    D: SerialBranchDecider<A, B, E>,
 {
    /// Wrap a child of the first kind.
    pub fn new_a(machine: A) -> (r: Self)
        requires
            machine.inv(),
        ensures
            r == HeterogeneousSerialNode::<I, A, B, E, D>::A(machine, core::marker::PhantomData),
            r.inv(),
    {
        HeterogeneousSerialNode::A(machine, core::marker::PhantomData)
    }

    /// Wrap a child of the second kind.
    pub fn new_b(machine: B) -> (r: Self)
        requires
            machine.inv(),
        ensures
            r == HeterogeneousSerialNode::<I, A, B, E, D>::B(machine, core::marker::PhantomData),
            r.inv(),
    {
        HeterogeneousSerialNode::B(machine, core::marker::PhantomData)
    }
}

impl<I, A, B, E, D> BehaviorTreeNode for HeterogeneousSerialNode<I, A, B, E, D> where
    A: BehaviorTreeNode<Input = I>,
    B: BehaviorTreeNode<Input = I>,
    D: SerialBranchDecider<A, B, E>,
 {
    type Input = I;
    type Nonterminal = NontermReturn<A, B>;
    type Terminal = E;

    open spec fn inv(self) -> bool {
        match self {
            HeterogeneousSerialNode::A(m, _) => m.inv(),
            HeterogeneousSerialNode::B(m, _) => m.inv(),
        }
    }

    open spec fn step_ok(
        self,
        input: I,
        result: NodeResult<NontermReturn<A, B>, E, Self>,
    ) -> bool {
        match self {
            HeterogeneousSerialNode::A(m, _) => exists|r: NodeResult<A::Nonterminal, A::Terminal, A>|
                (#[trigger] m.step_ok(input, r)) && (match r {
                    NodeResult::Nonterminal(v, a) => match D::a_nonterm_spec(v) {
                        NontermDecision::Step => result == NodeResult::<NontermReturn<A, B>, E,
                        Self>::Nonterminal(
                            NontermReturn::NontermA(v),
                            HeterogeneousSerialNode::A(a, core::marker::PhantomData),
                        ),
                        NontermDecision::TransA(n) => result == NodeResult::<NontermReturn<A, B>,
                        E, Self>::Nonterminal(
                            NontermReturn::NontermA(v),
                            HeterogeneousSerialNode::A(n, core::marker::PhantomData),
                        ),
                        NontermDecision::TransB(n) => result == NodeResult::<NontermReturn<A, B>,
                        E, Self>::Nonterminal(
                            NontermReturn::NontermA(v),
                            HeterogeneousSerialNode::B(n, core::marker::PhantomData),
                        ),
                        NontermDecision::Exit(x) => result == NodeResult::<NontermReturn<A, B>, E,
                        Self>::Terminal(x),
                    },
                    NodeResult::Terminal(v) => match D::a_term_spec(v) {
                        TermDecision::TransA(n) => result == NodeResult::<NontermReturn<A, B>, E,
                        Self>::Nonterminal(
                            NontermReturn::TermA(v),
                            HeterogeneousSerialNode::A(n, core::marker::PhantomData),
                        ),
                        TermDecision::TransB(n) => result == NodeResult::<NontermReturn<A, B>, E,
                        Self>::Nonterminal(
                            NontermReturn::TermA(v),
                            HeterogeneousSerialNode::B(n, core::marker::PhantomData),
                        ),
                        TermDecision::Exit(x) => result == NodeResult::<NontermReturn<A, B>, E,
                        Self>::Terminal(x),
                    },
                }),
            HeterogeneousSerialNode::B(m, _) => exists|r: NodeResult<B::Nonterminal, B::Terminal, B>|
                (#[trigger] m.step_ok(input, r)) && (match r {
                    NodeResult::Nonterminal(v, b) => match D::b_nonterm_spec(v) {
                        NontermDecision::Step => result == NodeResult::<NontermReturn<A, B>, E,
                        Self>::Nonterminal(
                            NontermReturn::NontermB(v),
                            HeterogeneousSerialNode::B(b, core::marker::PhantomData),
                        ),
                        NontermDecision::TransA(n) => result == NodeResult::<NontermReturn<A, B>,
                        E, Self>::Nonterminal(
                            NontermReturn::NontermB(v),
                            HeterogeneousSerialNode::A(n, core::marker::PhantomData),
                        ),
                        NontermDecision::TransB(n) => result == NodeResult::<NontermReturn<A, B>,
                        E, Self>::Nonterminal(
                            NontermReturn::NontermB(v),
                            HeterogeneousSerialNode::B(n, core::marker::PhantomData),
                        ),
                        NontermDecision::Exit(x) => result == NodeResult::<NontermReturn<A, B>, E,
                        Self>::Terminal(x),
                    },
                    NodeResult::Terminal(v) => match D::b_term_spec(v) {
                        TermDecision::TransA(n) => result == NodeResult::<NontermReturn<A, B>, E,
                        Self>::Nonterminal(
                            NontermReturn::TermB(v),
                            HeterogeneousSerialNode::A(n, core::marker::PhantomData),
                        ),
                        TermDecision::TransB(n) => result == NodeResult::<NontermReturn<A, B>, E,
                        Self>::Nonterminal(
                            NontermReturn::TermB(v),
                            HeterogeneousSerialNode::B(n, core::marker::PhantomData),
                        ),
                        TermDecision::Exit(x) => result == NodeResult::<NontermReturn<A, B>, E,
                        Self>::Terminal(x),
                    },
                }),
        }
    }

    fn step(self, input: &I) -> (result: NodeResult<NontermReturn<A, B>, E, Self>) {
        match self {
            HeterogeneousSerialNode::A(m, _) => match m.step(input) {
                NodeResult::Nonterminal(v, a) => match D::on_a_nonterminal(&v) {
                    NontermDecision::Step => NodeResult::Nonterminal(
                        NontermReturn::NontermA(v),
                        HeterogeneousSerialNode::A(a, core::marker::PhantomData),
                    ),
                    NontermDecision::TransA(n) => NodeResult::Nonterminal(
                        NontermReturn::NontermA(v),
                        HeterogeneousSerialNode::A(n, core::marker::PhantomData),
                    ),
                    NontermDecision::TransB(n) => NodeResult::Nonterminal(
                        NontermReturn::NontermA(v),
                        HeterogeneousSerialNode::B(n, core::marker::PhantomData),
                    ),
                    NontermDecision::Exit(x) => NodeResult::Terminal(x),
                },
                NodeResult::Terminal(v) => match D::on_a_terminal(&v) {
                    TermDecision::TransA(n) => NodeResult::Nonterminal(
                        NontermReturn::TermA(v),
                        HeterogeneousSerialNode::A(n, core::marker::PhantomData),
                    ),
                    TermDecision::TransB(n) => NodeResult::Nonterminal(
                        NontermReturn::TermA(v),
                        HeterogeneousSerialNode::B(n, core::marker::PhantomData),
                    ),
                    TermDecision::Exit(x) => NodeResult::Terminal(x),
                },
            },
            HeterogeneousSerialNode::B(m, _) => match m.step(input) {
                NodeResult::Nonterminal(v, b) => match D::on_b_nonterminal(&v) {
                    NontermDecision::Step => NodeResult::Nonterminal(
                        NontermReturn::NontermB(v),
                        HeterogeneousSerialNode::B(b, core::marker::PhantomData),
                    ),
                    NontermDecision::TransA(n) => NodeResult::Nonterminal(
                        NontermReturn::NontermB(v),
                        HeterogeneousSerialNode::A(n, core::marker::PhantomData),
                    ),
                    NontermDecision::TransB(n) => NodeResult::Nonterminal(
                        NontermReturn::NontermB(v),
                        HeterogeneousSerialNode::B(n, core::marker::PhantomData),
                    ),
                    NontermDecision::Exit(x) => NodeResult::Terminal(x),
                },
                NodeResult::Terminal(v) => match D::on_b_terminal(&v) {
                    TermDecision::TransA(n) => NodeResult::Nonterminal(
                        NontermReturn::TermB(v),
                        HeterogeneousSerialNode::A(n, core::marker::PhantomData),
                    ),
                    TermDecision::TransB(n) => NodeResult::Nonterminal(
                        NontermReturn::TermB(v),
                        HeterogeneousSerialNode::B(n, core::marker::PhantomData),
                    ),
                    TermDecision::Exit(x) => NodeResult::Terminal(x),
                },
            },
        }
    }
}

} // verus!
