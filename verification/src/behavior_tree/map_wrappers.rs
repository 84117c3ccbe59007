use vstd::prelude::*;
use crate::behavior_tree::behavior_tree_node::{BehaviorTreeNode, NodeResult};

verus! {

/// Mapping between different node input types.
pub trait InputNodeMap: Sized {
    /// The input type for the input mapper, which is taken as the input
    /// type of the wrapper.
    type In;
    /// The output type for the input mapper, which is then fed into the
    /// enclosed node.
    type Out;

    /// The mathematical description of the mapping.
    spec fn map_spec(self, input: Self::In) -> Self::Out;

    /// Map between the input supplied and the value to feed into the
    /// enclosed node.
    fn input_transform(&self, input: &Self::In) -> (out: Self::Out)
        ensures
            out == self.map_spec(*input),
    ;
}

/// Wrapper for a node which converts between the provided input type and
/// the input type expected by the node.
pub struct InputMappedNode<N, M> where N: BehaviorTreeNode, M: InputNodeMap<Out = N::Input> {
    /// The enclosed node.
    pub node: N,
    /// The input mapper applied before each step.
    pub mapper: M,
}

impl<N, M> InputMappedNode<N, M> where N: BehaviorTreeNode, M: InputNodeMap<Out = N::Input> {
    /// Create a new input mapped node.
    pub fn new(mapper: M, node: N) -> (r: Self)
        requires
            node.inv(),
        ensures
            r == (InputMappedNode { node, mapper }),
            r.inv(),
    {
        InputMappedNode { node, mapper }
    }
}

impl<N, M> BehaviorTreeNode for InputMappedNode<N, M> where
    N: BehaviorTreeNode,
    M: InputNodeMap<Out = N::Input>,
 {
    type Input = M::In;
    type Nonterminal = N::Nonterminal;
    type Terminal = N::Terminal;

    open spec fn inv(self) -> bool {
        self.node.inv()
    }

    open spec fn step_ok(
        self,
        input: M::In,
        result: NodeResult<N::Nonterminal, N::Terminal, Self>,
    ) -> bool {
        exists|r: NodeResult<N::Nonterminal, N::Terminal, N>|
            (#[trigger] self.node.step_ok(self.mapper.map_spec(input), r)) && (match r {
                NodeResult::Nonterminal(n, m) => result == NodeResult::<N::Nonterminal,
                N::Terminal, Self>::Nonterminal(
                    n,
                    InputMappedNode { node: m, mapper: self.mapper },
                ),
                NodeResult::Terminal(t) => result == NodeResult::<N::Nonterminal, N::Terminal,
                Self>::Terminal(t),
            })
    }

    fn step(self, input: &M::In) -> (result: NodeResult<N::Nonterminal, N::Terminal, Self>) {
        let mapped = self.mapper.input_transform(input);
        match self.node.step(&mapped) {
            NodeResult::Nonterminal(n, m) => NodeResult::Nonterminal(
                n,
                InputMappedNode { node: m, mapper: self.mapper },
            ),
            NodeResult::Terminal(t) => NodeResult::Terminal(t),
        }
    }
}

/// Mapping between different node statepoint types.
pub trait OutputNodeMap: Sized {
    /// The nonterminal type received from the enclosed node.
    type NontermIn;
    /// The nonterminal type exposed by the wrapper.
    type NontermOut;
    /// The terminal type received from the enclosed node.
    type TermIn;
    /// The terminal type exposed by the wrapper.
    type TermOut;

    /// The mathematical description of the nonterminal mapping.
    spec fn nonterm_map_spec(self, value: Self::NontermIn) -> Self::NontermOut;

    /// The mathematical description of the terminal mapping.
    spec fn term_map_spec(self, value: Self::TermIn) -> Self::TermOut;

    /// Map a nonterminal returned by the node to the one to return.
    fn nonterminal_transform(&self, value: Self::NontermIn) -> (out: Self::NontermOut)
        ensures
            out == self.nonterm_map_spec(value),
    ;

    /// Map a terminal returned by the node to the one to return.
    fn terminal_transform(&self, value: Self::TermIn) -> (out: Self::TermOut)
        ensures
            out == self.term_map_spec(value),
    ;
}

/// Wrapper for a node which converts between the statepoints emitted by
/// the node and the ones exposed by the wrapper.
pub struct OutputMappedNode<N, M> where
    N: BehaviorTreeNode,
    M: OutputNodeMap<NontermIn = N::Nonterminal, TermIn = N::Terminal>,
 {
    /// The enclosed node.
    pub node: N,
    /// The statepoint mapper applied after each step.
    pub mapper: M,
}

impl<N, M> OutputMappedNode<N, M> where
    N: BehaviorTreeNode,
    M: OutputNodeMap<NontermIn = N::Nonterminal, TermIn = N::Terminal>,
 {
    /// Create a new output mapped node.
    pub fn new(mapper: M, node: N) -> (r: Self)
        requires
            node.inv(),
        ensures
            r == (OutputMappedNode { node, mapper }),
            r.inv(),
    {
        OutputMappedNode { node, mapper }
    }
}

impl<N, M> BehaviorTreeNode for OutputMappedNode<N, M> where
    N: BehaviorTreeNode,
    M: OutputNodeMap<NontermIn = N::Nonterminal, TermIn = N::Terminal>,
 {
    type Input = N::Input;
    type Nonterminal = M::NontermOut;
    type Terminal = M::TermOut;

    open spec fn inv(self) -> bool {
        self.node.inv()
    }

    open spec fn step_ok(
        self,
        input: N::Input,
        result: NodeResult<M::NontermOut, M::TermOut, Self>,
    ) -> bool {
        exists|r: NodeResult<N::Nonterminal, N::Terminal, N>|
            (#[trigger] self.node.step_ok(input, r)) && (match r {
                NodeResult::Nonterminal(n, m) => result == NodeResult::<M::NontermOut, M::TermOut,
                Self>::Nonterminal(
                    self.mapper.nonterm_map_spec(n),
                    OutputMappedNode { node: m, mapper: self.mapper },
                ),
                NodeResult::Terminal(t) => result == NodeResult::<M::NontermOut, M::TermOut,
                Self>::Terminal(self.mapper.term_map_spec(t)),
            })
    }

    fn step(self, input: &N::Input) -> (result: NodeResult<M::NontermOut, M::TermOut, Self>) {
        match self.node.step(input) {
            NodeResult::Nonterminal(n, m) => NodeResult::Nonterminal(
                self.mapper.nonterminal_transform(n),
                OutputMappedNode { node: m, mapper: self.mapper },
            ),
            NodeResult::Terminal(t) => NodeResult::Terminal(self.mapper.terminal_transform(t)),
        }
    }
}

/// Lazy constructor for a behavior tree node, depending on the first
/// input.
pub trait LazyConstructor: Sized {
    /// Type of the node to create.
    type Creates: BehaviorTreeNode;

    /// The node that construction from a given first input yields.
    spec fn create_spec(self, input: <Self::Creates as BehaviorTreeNode>::Input) -> Self::Creates;

    /// Create a new node from the first input.
    fn create(&self, input: &<Self::Creates as BehaviorTreeNode>::Input) -> (node: Self::Creates)
        ensures
            node == self.create_spec(*input),
            node.inv(),
    ;
}

/// The node a lazily constructed wrapper effectively steps for a given
/// input: the held node once construction has happened, else the node the
/// pending constructor yields for this input.
pub open spec fn lazy_effective_node<N, M>(s: LazyConstructedNode<N, M>, input: N::Input) -> N where
    N: BehaviorTreeNode,
    M: LazyConstructor<Creates = N>,
{
    match s.inside {
        Some(LazyConstructedInner::Node(n)) => n,
        Some(LazyConstructedInner::Pending(c)) => c.create_spec(input),
        None => arbitrary(),
    }
}

/// The state of a lazily constructed node: either the node itself, or the
/// still pending constructor.
#[verifier::reject_recursive_types(N)]
#[verifier::reject_recursive_types(M)]
pub enum LazyConstructedInner<N, M> where N: BehaviorTreeNode, M: LazyConstructor<Creates = N> {
    /// The node has been constructed.
    Node(N),
    /// Construction is pending until the first input arrives.
    Pending(M),
}

/// Wrapper for a node which defers initialization until the first input is
/// supplied, after which the node is constructed using this input as a
/// parameter. The constructing input is also fed through the fresh node as
/// its first step, exactly once.
///
/// The inner state is swapped out of the wrapper for the duration of each
/// step; `inv` says that the slot is occupied, which every step preserves,
/// so the empty slot is never observable.
#[verifier::reject_recursive_types(N)]
#[verifier::reject_recursive_types(M)]
pub struct LazyConstructedNode<N, M> where N: BehaviorTreeNode, M: LazyConstructor<Creates = N> {
    /// The node, or the pending constructor.
    pub inside: Option<LazyConstructedInner<N, M>>,
}

impl<N, M> LazyConstructedNode<N, M> where N: BehaviorTreeNode, M: LazyConstructor<Creates = N> {
    /// Create a new lazily constructed behavior tree node.
    pub fn new(maker: M) -> (r: Self)
        ensures
            r == (LazyConstructedNode::<N, M> {
                inside: Some(LazyConstructedInner::Pending(maker)),
            }),
            r.inv(),
    {
        LazyConstructedNode { inside: Some(LazyConstructedInner::Pending(maker)) }
    }

    /// Wrap an existing behavior tree node in the lazily constructed node
    /// wrapper.
    pub fn from_existing(node: N) -> (r: Self)
        requires
            node.inv(),
        ensures
            r == (LazyConstructedNode::<N, M> { inside: Some(LazyConstructedInner::Node(node)) }),
            r.inv(),
    {
        LazyConstructedNode { inside: Some(LazyConstructedInner::Node(node)) }
    }
}

impl<N, M> BehaviorTreeNode for LazyConstructedNode<N, M> where
    N: BehaviorTreeNode,
    M: LazyConstructor<Creates = N>,
 {
    type Input = N::Input;
    type Nonterminal = N::Nonterminal;
    type Terminal = N::Terminal;

    open spec fn inv(self) -> bool {
        match self.inside {
            Some(LazyConstructedInner::Node(n)) => n.inv(),
            Some(LazyConstructedInner::Pending(_)) => true,
            None => false,
        }
    }

    open spec fn step_ok(
        self,
        input: N::Input,
        result: NodeResult<N::Nonterminal, N::Terminal, Self>,
    ) -> bool {
        self.inside is Some && exists|r: NodeResult<N::Nonterminal, N::Terminal, N>|
            {
                &&& #[trigger] lazy_effective_node(self, input).step_ok(input, r)
                &&& (match r {
                    NodeResult::Nonterminal(v, n2) => result == NodeResult::<N::Nonterminal,
                    N::Terminal, Self>::Nonterminal(
                        v,
                        LazyConstructedNode { inside: Some(LazyConstructedInner::Node(n2)) },
                    ),
                    NodeResult::Terminal(t) => result == NodeResult::<N::Nonterminal, N::Terminal,
                    Self>::Terminal(t),
                })
            }
    }

    fn step(self, input: &N::Input) -> (result: NodeResult<N::Nonterminal, N::Terminal, Self>) {
        let mut mut_self = self;
        let node = match mut_self.inside.take().unwrap() {
            LazyConstructedInner::Node(n) => n,
            LazyConstructedInner::Pending(c) => c.create(input),
        };
        proof {
            assert(node == lazy_effective_node(self, *input));
        }
        match node.step(input) {
            NodeResult::Nonterminal(v, n) => NodeResult::Nonterminal(
                v,
                LazyConstructedNode::from_existing(n),
            ),
            NodeResult::Terminal(t) => NodeResult::Terminal(t),
        }
    }
}

} // verus!
