use vstd::prelude::*;
use crate::behavior_tree::behavior_tree_node::{BehaviorTreeNode, NodeResult};

verus! {

/// Eager constructor for a behavior tree node.
pub trait CustomConstructor: Sized {
    /// Type of the node to create.
    type Creates: BehaviorTreeNode;

    /// The node that construction yields.
    spec fn create_spec(self) -> Self::Creates;

    /// Create a new node.
    fn create(&self) -> (node: Self::Creates)
        ensures
            node == self.create_spec(),
            node.inv(),
    ;
}

/// Wrapper for a node which designates a default constructor for that
/// node, without changing its stepping behavior.
#[verifier::reject_recursive_types(N)]
#[verifier::reject_recursive_types(M)]
pub struct CustomConstructedNode<N, M> where N: BehaviorTreeNode, M: CustomConstructor<Creates = N> {
    /// The enclosed node.
    pub node: N,
    /// The constructor type is part of the wrapper's identity only.
    pub constructor: core::marker::PhantomData<M>,
}

impl<N, M> CustomConstructedNode<N, M> where
    N: BehaviorTreeNode,
    M: CustomConstructor<Creates = N>,
 {
    /// Wrap an existing node in the custom constructed node wrapper.
    pub fn new(node: N) -> (r: Self)
        requires
            node.inv(),
        ensures
            r.node == node,
            r.inv(),
    {
        CustomConstructedNode { node, constructor: core::marker::PhantomData }
    }
}

impl<N, M> BehaviorTreeNode for CustomConstructedNode<N, M> where
    N: BehaviorTreeNode,
    M: CustomConstructor<Creates = N>,
 {
    type Input = N::Input;
    type Nonterminal = N::Nonterminal;
    type Terminal = N::Terminal;

    open spec fn inv(self) -> bool {
        self.node.inv()
    }

    open spec fn step_ok(
        self,
        input: N::Input,
        result: NodeResult<N::Nonterminal, N::Terminal, Self>,
    ) -> bool {
        exists|r: NodeResult<N::Nonterminal, N::Terminal, N>|
            (#[trigger] self.node.step_ok(input, r)) && (match r {
                NodeResult::Nonterminal(v, n) => result == NodeResult::<N::Nonterminal,
                N::Terminal, Self>::Nonterminal(
                    v,
                    CustomConstructedNode { node: n, constructor: core::marker::PhantomData },
                ),
                NodeResult::Terminal(t) => result == NodeResult::<N::Nonterminal, N::Terminal,
                Self>::Terminal(t),
            })
    }

    fn step(self, input: &N::Input) -> (result: NodeResult<N::Nonterminal, N::Terminal, Self>) {
        match self.node.step(input) {
            NodeResult::Nonterminal(v, n) => NodeResult::Nonterminal(v, Self::new(n)),
            NodeResult::Terminal(t) => NodeResult::Terminal(t),
        }
    }
}

} // verus!
