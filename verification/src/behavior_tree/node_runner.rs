use vstd::prelude::*;
use crate::automata_impl::automaton::{Automaton, FiniteStateAutomaton};
use crate::behavior_tree::behavior_tree_node::{BehaviorTreeNode, NodeResult, Statepoint};
use crate::behavior_tree::node_wrappers::CustomConstructor;

verus! {

/// Automaton wrapping a behavior tree node: input is forwarded to the node
/// and its statepoint handed back as the action, and whenever the node
/// terminates, a fresh node is constructed on the spot for the next tick,
/// so termination is externally observable exactly once per run while the
/// automaton never needs external reconstruction.
///
/// The node is swapped out of the runner for the duration of its own step;
/// `inv` says that the slot is occupied, which every transition preserves,
/// so the empty slot is never observable.
#[verifier::reject_recursive_types(N)]
#[verifier::reject_recursive_types(C)]
pub struct NodeRunner<N, C> where N: BehaviorTreeNode, C: CustomConstructor<Creates = N> {
    /// The constructor used to restart the node after each termination.
    pub constructor: C,
    /// The currently live node.
    pub node: Option<N>,
}

impl<N, C> NodeRunner<N, C> where N: BehaviorTreeNode, C: CustomConstructor<Creates = N> {
    /// Create a new node runner; the first live node is constructed
    /// immediately.
    pub fn new(constructor: C) -> (r: Self)
        ensures
            r.constructor == constructor,
            r.node == Some(constructor.create_spec()),
            r.inv(),
    {
        let new_node = constructor.create();
        NodeRunner { constructor, node: Some(new_node) }
    }
}

impl<N, C> Automaton for NodeRunner<N, C> where
    N: BehaviorTreeNode,
    C: CustomConstructor<Creates = N>,
 {
    type Input = N::Input;
    type Action = Statepoint<N::Nonterminal, N::Terminal>;

    open spec fn inv(self) -> bool {
        self.node matches Some(n) && n.inv()
    }

    open spec fn step_ok(
        self,
        input: N::Input,
        action: Statepoint<N::Nonterminal, N::Terminal>,
        next: Self,
    ) -> bool {
        self.node matches Some(node) && exists|r: NodeResult<N::Nonterminal, N::Terminal, N>|
            (#[trigger] node.step_ok(input, r)) && (match r {
                NodeResult::Nonterminal(s, a) => action == Statepoint::<N::Nonterminal,
                N::Terminal>::Nonterminal(s) && next == (NodeRunner {
                    constructor: self.constructor,
                    node: Some(a),
                }),
                NodeResult::Terminal(t) => action == Statepoint::<N::Nonterminal,
                N::Terminal>::Terminal(t) && next == (NodeRunner {
                    constructor: self.constructor,
                    node: Some(self.constructor.create_spec()),
                }),
            })
    }

    fn transition(&mut self, input: &N::Input) -> (action: Statepoint<
        N::Nonterminal,
        N::Terminal,
    >) {
        let node = self.node.take().unwrap();
        match node.step(input) {
            NodeResult::Nonterminal(s, a) => {
                self.node = Some(a);
                Statepoint::Nonterminal(s)
            },
            NodeResult::Terminal(t) => {
                self.node = Some(self.constructor.create());
                Statepoint::Terminal(t)
            },
        }
    }
}

impl<N, C> Clone for NodeRunner<N, C> where
    N: BehaviorTreeNode + Copy,
    C: CustomConstructor<Creates = N> + Copy,
 {
    fn clone(&self) -> (other: Self)
        ensures
            other == *self,
    {
        NodeRunner { constructor: self.constructor, node: self.node }
    }
}

impl<N, C> Copy for NodeRunner<N, C> where
    N: BehaviorTreeNode + Copy,
    C: CustomConstructor<Creates = N> + Copy,
 {

}

impl<N, C> FiniteStateAutomaton for NodeRunner<N, C> where
    N: BehaviorTreeNode + Copy,
    C: CustomConstructor<Creates = N> + Copy,
 {

}

/// Runner auto-restart: a tick on which the runner reports a terminal
/// statepoint is exactly a tick on which the wrapped node terminated, and
/// the runner then already holds the freshly constructed replacement, so
/// the next tick is serviced without any external reconstruction.
pub proof fn lemma_runner_auto_restart<N, C>(
    s: NodeRunner<N, C>,
    input: N::Input,
    action: Statepoint<N::Nonterminal, N::Terminal>,
    next: NodeRunner<N, C>,
) where N: BehaviorTreeNode, C: CustomConstructor<Creates = N>
    requires
        s.step_ok(input, action, next),
    ensures
        action matches Statepoint::Terminal(t) ==> next == (NodeRunner {
            constructor: s.constructor,
            node: Some(s.constructor.create_spec()),
        }),
        action matches Statepoint::Nonterminal(v) ==> (s.node matches Some(node) && exists|n2: N|
            #[trigger] node.step_ok(
                input,
                NodeResult::<N::Nonterminal, N::Terminal, N>::Nonterminal(v, n2),
            ) && next.node == Some(n2)),
{
    let node = s.node->Some_0;
    let r = choose|r: NodeResult<N::Nonterminal, N::Terminal, N>|
        (#[trigger] node.step_ok(input, r)) && (match r {
            NodeResult::Nonterminal(s2, a) => action == Statepoint::<N::Nonterminal,
            N::Terminal>::Nonterminal(s2) && next == (NodeRunner {
                constructor: s.constructor,
                node: Some(a),
            }),
            NodeResult::Terminal(t) => action == Statepoint::<N::Nonterminal,
            N::Terminal>::Terminal(t) && next == (NodeRunner {
                constructor: s.constructor,
                node: Some(s.constructor.create_spec()),
            }),
        });
    match r {
        NodeResult::Nonterminal(v, n2) => {
            assert(action == Statepoint::<N::Nonterminal, N::Terminal>::Nonterminal(v));
            assert(node.step_ok(
                input,
                NodeResult::<N::Nonterminal, N::Terminal, N>::Nonterminal(
                    action->Nonterminal_0,
                    n2,
                ),
            ));
        },
        NodeResult::Terminal(_) => {
        },
    }
}

} // verus!
