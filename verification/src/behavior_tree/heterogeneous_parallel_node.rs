use vstd::prelude::*;
use crate::behavior_tree::behavior_tree_node::{BehaviorTreeNode, NodeResult};

verus! {

/// Enumeration of the possible decisions when both children reach
/// nonterminal states; a reset decision carries the replacement child or
/// children to install.
pub enum NontermDecision<A, B, X> {
    /// Step both children as they are.
    Step,
    /// Replace the first child with the carried one.
    ResetA(A),
    /// Replace the second child with the carried one.
    ResetB(B),
    /// Replace both children with the carried ones.
    ResetBoth(A, B),
    /// Exit the supernode entirely.
    Exit(X),
}

/// Enumeration of the possible decisions when the first child terminated
/// while the second is still running: the first child's slot must be
/// refilled with the carried replacement, or the supernode exits.
pub enum TermADecision<A, B, X> {
    /// Keep the second child and install the carried first child.
    StepB(A),
    /// Install the carried replacements for both children.
    ResetB(A, B),
    /// Exit the supernode entirely.
    Exit(X),
}

/// Enumeration of the possible decisions when the second child terminated
/// while the first is still running: the second child's slot must be
/// refilled with the carried replacement, or the supernode exits.
pub enum TermBDecision<A, B, X> {
    /// Keep the first child and install the carried second child.
    StepA(B),
    /// Install the carried replacements for both children.
    ResetA(A, B),
    /// Exit the supernode entirely.
    Exit(X),
}

/// Enumeration of the possible decisions when both children terminated on
/// the same tick.
pub enum TermBothDecision<A, B, X> {
    /// Install the carried replacements for both children.
    Reset(A, B),
    /// Exit the supernode entirely.
    Exit(X),
}

/// Return type of the parallel node: the statepoints both children
/// reached on this tick, in every combination of nonterminal and terminal.
#[verifier::reject_recursive_types(A)]
#[verifier::reject_recursive_types(B)]
pub enum NontermReturn<A, B> where A: BehaviorTreeNode, B: BehaviorTreeNode {
    /// Both children are still running.
    NontermBoth(A::Nonterminal, B::Nonterminal),
    /// The first child terminated, the second is still running.
    TermANotB(A::Terminal, B::Nonterminal),
    /// The second child terminated, the first is still running.
    TermBNotA(A::Nonterminal, B::Terminal),
    /// Both children terminated.
    TermBoth(A::Terminal, B::Terminal),
}

/// The decision policy of a two-kinded parallel node, consulted with the
/// pair of statepoints the children reached.
pub trait ParallelBranchDecider<A, B, E> where A: BehaviorTreeNode, B: BehaviorTreeNode {
    /// The mathematical description of the decision when both children
    /// are nonterminal.
    spec fn nonterm_spec(a: A::Nonterminal, b: B::Nonterminal) -> NontermDecision<A, B, E>;

    /// The mathematical description of the decision when only the first
    /// child terminated.
    spec fn a_term_spec(a: A::Terminal, b: B::Nonterminal) -> TermADecision<A, B, E>;

    /// The mathematical description of the decision when only the second
    /// child terminated.
    spec fn b_term_spec(a: A::Nonterminal, b: B::Terminal) -> TermBDecision<A, B, E>;

    /// The mathematical description of the decision when both children
    /// terminated.
    spec fn both_term_spec(a: A::Terminal, b: B::Terminal) -> TermBothDecision<A, B, E>;

    /// Decide what to do when both children are nonterminal.
    fn on_nonterm(a: &A::Nonterminal, b: &B::Nonterminal) -> (d: NontermDecision<A, B, E>)
        ensures
            d == Self::nonterm_spec(*a, *b),
            d matches NontermDecision::ResetA(n) ==> n.inv(),
            d matches NontermDecision::ResetB(n) ==> n.inv(),
            d matches NontermDecision::ResetBoth(n, m) ==> n.inv() && m.inv(),
    ;

    /// Decide what to do when only the first child terminated.
    fn on_aterm(a: &A::Terminal, b: &B::Nonterminal) -> (d: TermADecision<A, B, E>)
        ensures
            d == Self::a_term_spec(*a, *b),
            d matches TermADecision::StepB(n) ==> n.inv(),
            d matches TermADecision::ResetB(n, m) ==> n.inv() && m.inv(),
    ;

    /// Decide what to do when only the second child terminated.
    fn on_bterm(a: &A::Nonterminal, b: &B::Terminal) -> (d: TermBDecision<A, B, E>)
        ensures
            d == Self::b_term_spec(*a, *b),
            d matches TermBDecision::StepA(n) ==> n.inv(),
            d matches TermBDecision::ResetA(n, m) ==> n.inv() && m.inv(),
    ;

    /// Decide what to do when both children terminated.
    fn on_bothterm(a: &A::Terminal, b: &B::Terminal) -> (d: TermBothDecision<A, B, E>)
        ensures
            d == Self::both_term_spec(*a, *b),
            d matches TermBothDecision::Reset(n, m) ==> n.inv() && m.inv(),
    ;
}

/// A parallel node over exactly two differently typed children: both are
/// stepped every tick, the first with the first component of the input
/// pair and the second with the second, and the decision policy inspects
/// the pair of statepoints they reached. The two slots always stay
/// filled: a terminated child is replaced by whatever the policy carries,
/// unless the policy exits the whole node.
#[verifier::reject_recursive_types(E)]
#[verifier::reject_recursive_types(D)]
pub struct HeterogeneousParallelNode<A, B, E, D> where
    A: BehaviorTreeNode,
    B: BehaviorTreeNode,
    D: ParallelBranchDecider<A, B, E>,
 {
    /// The first child.
    pub machine_a: A,
    /// The second child.
    pub machine_b: B,
    /// The exit and decider types are part of the node's identity only.
    pub types: core::marker::PhantomData<(E, D)>,
}

impl<A, B, E, D> HeterogeneousParallelNode<A, B, E, D> where
    A: BehaviorTreeNode,
    B: BehaviorTreeNode,
    D: ParallelBranchDecider<A, B, E>,
 {
    /// Create a new parallel node from its two children.
    pub fn new(machine_a: A, machine_b: B) -> (r: Self)
        requires
            machine_a.inv(),
            machine_b.inv(),
        ensures
            r == (HeterogeneousParallelNode::<A, B, E, D> {
                machine_a,
                machine_b,
                types: core::marker::PhantomData,
            }),
            r.inv(),
    {
        HeterogeneousParallelNode { machine_a, machine_b, types: core::marker::PhantomData }
    }
}

impl<A, B, E, D> BehaviorTreeNode for HeterogeneousParallelNode<A, B, E, D> where
    A: BehaviorTreeNode,
    B: BehaviorTreeNode,
    D: ParallelBranchDecider<A, B, E>,
 {
    type Input = (A::Input, B::Input);
    type Nonterminal = NontermReturn<A, B>;
    type Terminal = E;

    open spec fn inv(self) -> bool {
        self.machine_a.inv() && self.machine_b.inv()
    }

    open spec fn step_ok(
        self,
        input: (A::Input, B::Input),
        result: NodeResult<NontermReturn<A, B>, E, Self>,
    ) -> bool {
        exists|ra: NodeResult<A::Nonterminal, A::Terminal, A>, rb: NodeResult<
            B::Nonterminal,
            B::Terminal,
            B,
        >|
            {
                &&& #[trigger] self.machine_a.step_ok(input.0, ra)
                &&& #[trigger] self.machine_b.step_ok(input.1, rb)
                &&& (match (ra, rb) {
                    (NodeResult::Nonterminal(s, a), NodeResult::Nonterminal(t, b)) => match D::nonterm_spec(
                        s,
                        t,
                    ) {
                        NontermDecision::Step => result == NodeResult::<NontermReturn<A, B>, E,
                        Self>::Nonterminal(
                            NontermReturn::NontermBoth(s, t),
                            HeterogeneousParallelNode {
                                machine_a: a,
                                machine_b: b,
                                types: core::marker::PhantomData,
                            },
                        ),
                        NontermDecision::ResetA(a2) => result == NodeResult::<NontermReturn<A, B>,
                        E, Self>::Nonterminal(
                            NontermReturn::NontermBoth(s, t),
                            HeterogeneousParallelNode {
                                machine_a: a2,
                                machine_b: b,
                                types: core::marker::PhantomData,
                            },
                        ),
                        NontermDecision::ResetB(b2) => result == NodeResult::<NontermReturn<A, B>,
                        E, Self>::Nonterminal(
                            NontermReturn::NontermBoth(s, t),
                            HeterogeneousParallelNode {
                                machine_a: a,
                                machine_b: b2,
                                types: core::marker::PhantomData,
                            },
                        ),
                        NontermDecision::ResetBoth(a2, b2) => result == NodeResult::<
                            NontermReturn<A, B>,
                            E,
                            Self,
                        >::Nonterminal(
                            NontermReturn::NontermBoth(s, t),
                            HeterogeneousParallelNode {
                                machine_a: a2,
                                machine_b: b2,
                                types: core::marker::PhantomData,
                            },
                        ),
                        NontermDecision::Exit(x) => result == NodeResult::<NontermReturn<A, B>, E,
                        Self>::Terminal(x),
                    },
                    (NodeResult::Terminal(s), NodeResult::Nonterminal(t, b)) => match D::a_term_spec(
                        s,
                        t,
                    ) {
                        TermADecision::StepB(a2) => result == NodeResult::<NontermReturn<A, B>, E,
                        Self>::Nonterminal(
                            NontermReturn::TermANotB(s, t),
                            HeterogeneousParallelNode {
                                machine_a: a2,
                                machine_b: b,
                                types: core::marker::PhantomData,
                            },
                        ),
                        TermADecision::ResetB(a2, b2) => result == NodeResult::<
                            NontermReturn<A, B>,
                            E,
                            Self,
                        >::Nonterminal(
                            NontermReturn::TermANotB(s, t),
                            HeterogeneousParallelNode {
                                machine_a: a2,
                                machine_b: b2,
                                types: core::marker::PhantomData,
                            },
                        ),
                        TermADecision::Exit(x) => result == NodeResult::<NontermReturn<A, B>, E,
                        Self>::Terminal(x),
                    },
                    (NodeResult::Nonterminal(s, a), NodeResult::Terminal(t)) => match D::b_term_spec(
                        s,
                        t,
                    ) {
                        TermBDecision::StepA(b2) => result == NodeResult::<NontermReturn<A, B>, E,
                        Self>::Nonterminal(
                            NontermReturn::TermBNotA(s, t),
                            HeterogeneousParallelNode {
                                machine_a: a,
                                machine_b: b2,
                                types: core::marker::PhantomData,
                            },
                        ),
                        TermBDecision::ResetA(a2, b2) => result == NodeResult::<
                            NontermReturn<A, B>,
                            E,
                            Self,
                        >::Nonterminal(
                            NontermReturn::TermBNotA(s, t),
                            HeterogeneousParallelNode {
                                machine_a: a2,
                                machine_b: b2,
                                types: core::marker::PhantomData,
                            },
                        ),
                        TermBDecision::Exit(x) => result == NodeResult::<NontermReturn<A, B>, E,
                        Self>::Terminal(x),
                    },
                    (NodeResult::Terminal(s), NodeResult::Terminal(t)) => match D::both_term_spec(
                        s,
                        t,
                    ) {
                        TermBothDecision::Reset(a2, b2) => result == NodeResult::<
                            NontermReturn<A, B>,
                            E,
                            Self,
                        >::Nonterminal(
                            NontermReturn::TermBoth(s, t),
                            HeterogeneousParallelNode {
                                machine_a: a2,
                                machine_b: b2,
                                types: core::marker::PhantomData,
                            },
                        ),
                        TermBothDecision::Exit(x) => result == NodeResult::<NontermReturn<A, B>,
                        E, Self>::Terminal(x),
                    },
                })
            }
    }

    fn step(self, input: &(A::Input, B::Input)) -> (result: NodeResult<
        NontermReturn<A, B>,
        E,
        Self,
    >) {
        let ra = self.machine_a.step(&input.0);
        let rb = self.machine_b.step(&input.1);
        match (ra, rb) {
            (NodeResult::Nonterminal(s, a), NodeResult::Nonterminal(t, b)) => {
                match D::on_nonterm(&s, &t) {
                    NontermDecision::Step => NodeResult::Nonterminal(
                        NontermReturn::NontermBoth(s, t),
                        HeterogeneousParallelNode {
                            machine_a: a,
                            machine_b: b,
                            types: core::marker::PhantomData,
                        },
                    ),
                    NontermDecision::ResetA(a2) => NodeResult::Nonterminal(
                        NontermReturn::NontermBoth(s, t),
                        HeterogeneousParallelNode {
                            machine_a: a2,
                            machine_b: b,
                            types: core::marker::PhantomData,
                        },
                    ),
                    NontermDecision::ResetB(b2) => NodeResult::Nonterminal(
                        NontermReturn::NontermBoth(s, t),
                        HeterogeneousParallelNode {
                            machine_a: a,
                            machine_b: b2,
                            types: core::marker::PhantomData,
                        },
                    ),
                    NontermDecision::ResetBoth(a2, b2) => NodeResult::Nonterminal(
                        NontermReturn::NontermBoth(s, t),
                        HeterogeneousParallelNode {
                            machine_a: a2,
                            machine_b: b2,
                            types: core::marker::PhantomData,
                        },
                    ),
                    NontermDecision::Exit(x) => NodeResult::Terminal(x),
                }
            },
            (NodeResult::Terminal(s), NodeResult::Nonterminal(t, b)) => {
                match D::on_aterm(&s, &t) {
                    TermADecision::StepB(a2) => NodeResult::Nonterminal(
                        NontermReturn::TermANotB(s, t),
                        HeterogeneousParallelNode {
                            machine_a: a2,
                            machine_b: b,
                            types: core::marker::PhantomData,
                        },
                    ),
                    TermADecision::ResetB(a2, b2) => NodeResult::Nonterminal(
                        NontermReturn::TermANotB(s, t),
                        HeterogeneousParallelNode {
                            machine_a: a2,
                            machine_b: b2,
                            types: core::marker::PhantomData,
                        },
                    ),
                    TermADecision::Exit(x) => NodeResult::Terminal(x),
                }
            },
            (NodeResult::Nonterminal(s, a), NodeResult::Terminal(t)) => {
                match D::on_bterm(&s, &t) {
                    TermBDecision::StepA(b2) => NodeResult::Nonterminal(
                        NontermReturn::TermBNotA(s, t),
                        HeterogeneousParallelNode {
                            machine_a: a,
                            machine_b: b2,
                            types: core::marker::PhantomData,
                        },
                    ),
                    TermBDecision::ResetA(a2, b2) => NodeResult::Nonterminal(
                        NontermReturn::TermBNotA(s, t),
                        HeterogeneousParallelNode {
                            machine_a: a2,
                            machine_b: b2,
                            types: core::marker::PhantomData,
                        },
                    ),
                    TermBDecision::Exit(x) => NodeResult::Terminal(x),
                }
            },
            (NodeResult::Terminal(s), NodeResult::Terminal(t)) => {
                match D::on_bothterm(&s, &t) {
                    TermBothDecision::Reset(a2, b2) => NodeResult::Nonterminal(
                        NontermReturn::TermBoth(s, t),
                        HeterogeneousParallelNode {
                            machine_a: a2,
                            machine_b: b2,
                            types: core::marker::PhantomData,
                        },
                    ),
                    TermBothDecision::Exit(x) => NodeResult::Terminal(x),
                }
            },
        }
    }
}

} // verus!
