use vstd::prelude::*;
use crate::behavior_tree::behavior_tree_node::{BehaviorTreeNode, NodeResult};

verus! {

/// The nonterminal state a guarded node was in when its guard condition
/// failed.
pub struct GuardFailure<N>(pub N);

/// A guard condition over the input and the nonterminal state a node just
/// reached.
pub trait NodeGuard: Sized {
    /// The input type of the guarded node.
    type Input;
    /// The nonterminal type of the guarded node.
    type Nonterm;

    /// The mathematical description of the condition.
    spec fn test_spec(self, input: Self::Input, nonterm: Self::Nonterm) -> bool;

    /// Decide whether the guarded node may keep running.
    fn test(&self, input: &Self::Input, nonterm: &Self::Nonterm) -> (r: bool)
        ensures
            r == self.test_spec(*input, *nonterm),
    ;
}

/// Guard wrapper for a node: as long as the guard condition holds of each
/// nonterminal the child reaches, the child keeps running; when it fails,
/// the node exits abnormally with the offending nonterminal state.
pub struct GuardedNode<N, G> where
    N: BehaviorTreeNode,
    G: NodeGuard<Input = N::Input, Nonterm = N::Nonterminal>,
 {
    /// The guarded child node.
    pub node: N,
    /// The guard condition.
    pub guard: G,
}

impl<N, G> GuardedNode<N, G> where
    N: BehaviorTreeNode,
    G: NodeGuard<Input = N::Input, Nonterm = N::Nonterminal>,
 {
    /// Create a new guarded node.
    pub fn new(guard: G, node: N) -> (r: Self)
        requires
            node.inv(),
        ensures
            r == (GuardedNode { node, guard }),
            r.inv(),
    {
        GuardedNode { node, guard }
    }
}

impl<N, G> BehaviorTreeNode for GuardedNode<N, G> where
    N: BehaviorTreeNode,
    G: NodeGuard<Input = N::Input, Nonterm = N::Nonterminal>,
 {
    type Input = N::Input;
    type Nonterminal = N::Nonterminal;
    type Terminal = Result<N::Terminal, GuardFailure<N::Nonterminal>>;

    open spec fn inv(self) -> bool {
        self.node.inv()
    }

    open spec fn step_ok(
        self,
        input: N::Input,
        result: NodeResult<N::Nonterminal, Self::Terminal, Self>,
    ) -> bool {
        exists|r: NodeResult<N::Nonterminal, N::Terminal, N>|
            (#[trigger] self.node.step_ok(input, r)) && (match r {
                NodeResult::Nonterminal(n, m) => if self.guard.test_spec(input, n) {
                    result == NodeResult::<N::Nonterminal, Self::Terminal, Self>::Nonterminal(
                        n,
                        GuardedNode { node: m, guard: self.guard },
                    )
                } else {
                    result == NodeResult::<N::Nonterminal, Self::Terminal, Self>::Terminal(
                        Err(GuardFailure(n)),
                    )
                },
                NodeResult::Terminal(t) => result == NodeResult::<N::Nonterminal, Self::Terminal,
                Self>::Terminal(Ok(t)),
            })
    }

    fn step(self, input: &N::Input) -> (result: NodeResult<
        N::Nonterminal,
        Self::Terminal,
        Self,
    >) {
        match self.node.step(input) {
            NodeResult::Nonterminal(n, m) => {
                if self.guard.test(input, &n) {
                    NodeResult::Nonterminal(n, GuardedNode { node: m, guard: self.guard })
                } else {
                    NodeResult::Terminal(Err(GuardFailure(n)))
                }
            },
            NodeResult::Terminal(t) => NodeResult::Terminal(Ok(t)),
        }
    }
}

/// Enumeration of the possible decisions of a step controller; a reset
/// decision carries the replacement node to install.
pub enum StepDecision<N> {
    /// Don't step the node.
    Pause,
    /// Step the node as normal.
    Play,
    /// Dispose the current node, and install the carried one in its place.
    Reset(N),
    /// Install the carried node, and then subsequently step it.
    ResetPlay(N),
}

/// Nonterminal enum for a step-controlled node.
pub enum StepCtrlNonterm<I> {
    /// The node was stepped as normal, perhaps after resetting it.
    Stepped(I),
    /// The node was paused, and maybe reset.
    Paused,
}

/// A controller deciding, from the input alone, whether the wrapped node
/// is paused, stepped, or replaced this tick.
pub trait StepControl: Sized {
    /// The node type being controlled.
    type Node: BehaviorTreeNode;

    /// The mathematical description of the decision.
    spec fn control_spec(self, input: <Self::Node as BehaviorTreeNode>::Input) -> StepDecision<
        Self::Node,
    >;

    /// Decide what to do with the controlled node for this input.
    fn controlled_step(&self, input: &<Self::Node as BehaviorTreeNode>::Input) -> (d: StepDecision<
        Self::Node,
    >)
        ensures
            d == self.control_spec(*input),
            d matches StepDecision::Reset(n) ==> n.inv(),
            d matches StepDecision::ResetPlay(n) ==> n.inv(),
    ;
}

/// A step-controlling wrapper for a node, which may pause, step, and/or
/// replace the node depending on the input, before the node goes forward.
#[verifier::reject_recursive_types(N)]
#[verifier::reject_recursive_types(S)]
pub struct StepControlledNode<N, S> where N: BehaviorTreeNode, S: StepControl<Node = N> {
    /// The controlled child node.
    pub node: N,
    /// The step controller.
    pub stepper: S,
}

impl<N, S> StepControlledNode<N, S> where N: BehaviorTreeNode, S: StepControl<Node = N> {
    /// Create a new step controlled node.
    pub fn new(stepper: S, node: N) -> (r: Self)
        requires
            node.inv(),
        ensures
            r == (StepControlledNode { node, stepper }),
            r.inv(),
    {
        StepControlledNode { node, stepper }
    }
}

impl<N, S> BehaviorTreeNode for StepControlledNode<N, S> where
    N: BehaviorTreeNode,
    S: StepControl<Node = N>,
 {
    type Input = N::Input;
    type Nonterminal = StepCtrlNonterm<N::Nonterminal>;
    type Terminal = N::Terminal;

    open spec fn inv(self) -> bool {
        self.node.inv()
    }

    open spec fn step_ok(
        self,
        input: N::Input,
        result: NodeResult<Self::Nonterminal, N::Terminal, Self>,
    ) -> bool {
        match self.stepper.control_spec(input) {
            StepDecision::Pause => result == NodeResult::<Self::Nonterminal, N::Terminal,
            Self>::Nonterminal(StepCtrlNonterm::Paused, self),
            StepDecision::Play => exists|r: NodeResult<N::Nonterminal, N::Terminal, N>|
                (#[trigger] self.node.step_ok(input, r)) && (match r {
                    NodeResult::Nonterminal(n, m) => result == NodeResult::<Self::Nonterminal,
                    N::Terminal, Self>::Nonterminal(
                        StepCtrlNonterm::Stepped(n),
                        StepControlledNode { node: m, stepper: self.stepper },
                    ),
                    NodeResult::Terminal(t) => result == NodeResult::<Self::Nonterminal,
                    N::Terminal, Self>::Terminal(t),
                }),
            StepDecision::Reset(new_node) => result == NodeResult::<Self::Nonterminal, N::Terminal,
            Self>::Nonterminal(
                StepCtrlNonterm::Paused,
                StepControlledNode { node: new_node, stepper: self.stepper },
            ),
            StepDecision::ResetPlay(new_node) => exists|r: NodeResult<N::Nonterminal, N::Terminal, N>|
                (#[trigger] new_node.step_ok(input, r)) && (match r {
                    NodeResult::Nonterminal(n, m) => result == NodeResult::<Self::Nonterminal,
                    N::Terminal, Self>::Nonterminal(
                        StepCtrlNonterm::Stepped(n),
                        StepControlledNode { node: m, stepper: self.stepper },
                    ),
                    NodeResult::Terminal(t) => result == NodeResult::<Self::Nonterminal,
                    N::Terminal, Self>::Terminal(t),
                }),
        }
    }

    fn step(self, input: &N::Input) -> (result: NodeResult<
        Self::Nonterminal,
        N::Terminal,
        Self,
    >) {
        match self.stepper.controlled_step(input) {
            StepDecision::Pause => NodeResult::Nonterminal(StepCtrlNonterm::Paused, self),
            StepDecision::Play => {
                match self.node.step(input) {
                    NodeResult::Nonterminal(n, m) => NodeResult::Nonterminal(
                        StepCtrlNonterm::Stepped(n),
                        StepControlledNode { node: m, stepper: self.stepper },
                    ),
                    NodeResult::Terminal(t) => NodeResult::Terminal(t),
                }
            },
            StepDecision::Reset(new_node) => NodeResult::Nonterminal(
                StepCtrlNonterm::Paused,
                StepControlledNode { node: new_node, stepper: self.stepper },
            ),
            StepDecision::ResetPlay(new_node) => {
                match new_node.step(input) {
                    NodeResult::Nonterminal(n, m) => NodeResult::Nonterminal(
                        StepCtrlNonterm::Stepped(n),
                        StepControlledNode { node: m, stepper: self.stepper },
                    ),
                    NodeResult::Terminal(t) => NodeResult::Terminal(t),
                }
            },
        }
    }
}

/// Nonterminal enum for a post-run resetting node.
pub enum PostResetNonterm<N, T> {
    /// The node was not reset.
    NoReset(N),
    /// The node was reset from a nonterminal state.
    ManualReset(N),
    /// The node was reset from a terminal state.
    EndReset(T),
}

/// A controller deciding, after the wrapped node ran, whether to replace
/// it; consulted with the input and the statepoint the node just reached.
pub trait PostResetControl: Sized {
    /// The node type being controlled.
    type Node: BehaviorTreeNode;

    /// The mathematical description of the decision after a nonterminal.
    spec fn after_nonterminal_spec(
        self,
        input: <Self::Node as BehaviorTreeNode>::Input,
        nonterm: <Self::Node as BehaviorTreeNode>::Nonterminal,
    ) -> Option<Self::Node>;

    /// The mathematical description of the decision after a terminal.
    spec fn after_terminal_spec(
        self,
        input: <Self::Node as BehaviorTreeNode>::Input,
        term: <Self::Node as BehaviorTreeNode>::Terminal,
    ) -> Option<Self::Node>;

    /// Decide whether to replace the node after it reached a nonterminal.
    fn after_nonterminal(
        &self,
        input: &<Self::Node as BehaviorTreeNode>::Input,
        nonterm: &<Self::Node as BehaviorTreeNode>::Nonterminal,
    ) -> (d: Option<Self::Node>)
        ensures
            d == self.after_nonterminal_spec(*input, *nonterm),
            d matches Some(n) ==> n.inv(),
    ;

    /// Decide whether to replace the node after it reached a terminal.
    fn after_terminal(
        &self,
        input: &<Self::Node as BehaviorTreeNode>::Input,
        term: &<Self::Node as BehaviorTreeNode>::Terminal,
    ) -> (d: Option<Self::Node>)
        ensures
            d == self.after_terminal_spec(*input, *term),
            d matches Some(n) ==> n.inv(),
    ;
}

/// A post-run resetting wrapper for a node, which may replace the node
/// after it runs; a reset from a terminal state keeps the composite alive
/// where the bare node would have ended.
#[verifier::reject_recursive_types(N)]
#[verifier::reject_recursive_types(P)]
pub struct PostResetNode<N, P> where N: BehaviorTreeNode, P: PostResetControl<Node = N> {
    /// The controlled child node.
    pub node: N,
    /// The reset controller.
    pub resetter: P,
}

impl<N, P> PostResetNode<N, P> where N: BehaviorTreeNode, P: PostResetControl<Node = N> {
    /// Create a new post-run resetting node.
    pub fn new(resetter: P, node: N) -> (r: Self)
        requires
            node.inv(),
        ensures
            r == (PostResetNode { node, resetter }),
            r.inv(),
    {
        PostResetNode { node, resetter }
    }
}

impl<N, P> BehaviorTreeNode for PostResetNode<N, P> where
    N: BehaviorTreeNode,
    P: PostResetControl<Node = N>,
 {
    type Input = N::Input;
    type Nonterminal = PostResetNonterm<N::Nonterminal, N::Terminal>;
    type Terminal = N::Terminal;

    open spec fn inv(self) -> bool {
        self.node.inv()
    }

    open spec fn step_ok(
        self,
        input: N::Input,
        result: NodeResult<Self::Nonterminal, N::Terminal, Self>,
    ) -> bool {
        exists|r: NodeResult<N::Nonterminal, N::Terminal, N>|
            (#[trigger] self.node.step_ok(input, r)) && (match r {
                NodeResult::Nonterminal(v, n) => match self.resetter.after_nonterminal_spec(
                    input,
                    v,
                ) {
                    Some(k) => result == NodeResult::<Self::Nonterminal, N::Terminal,
                    Self>::Nonterminal(
                        PostResetNonterm::ManualReset(v),
                        PostResetNode { node: k, resetter: self.resetter },
                    ),
                    None => result == NodeResult::<Self::Nonterminal, N::Terminal,
                    Self>::Nonterminal(
                        PostResetNonterm::NoReset(v),
                        PostResetNode { node: n, resetter: self.resetter },
                    ),
                },
                NodeResult::Terminal(t) => match self.resetter.after_terminal_spec(input, t) {
                    Some(n) => result == NodeResult::<Self::Nonterminal, N::Terminal,
                    Self>::Nonterminal(
                        PostResetNonterm::EndReset(t),
                        PostResetNode { node: n, resetter: self.resetter },
                    ),
                    None => result == NodeResult::<Self::Nonterminal, N::Terminal, Self>::Terminal(
                        t,
                    ),
                },
            })
    }

    fn step(self, input: &N::Input) -> (result: NodeResult<
        Self::Nonterminal,
        N::Terminal,
        Self,
    >) {
        match self.node.step(input) {
            NodeResult::Nonterminal(v, n) => {
                match self.resetter.after_nonterminal(input, &v) {
                    Some(k) => NodeResult::Nonterminal(
                        PostResetNonterm::ManualReset(v),
                        PostResetNode { node: k, resetter: self.resetter },
                    ),
                    None => NodeResult::Nonterminal(
                        PostResetNonterm::NoReset(v),
                        PostResetNode { node: n, resetter: self.resetter },
                    ),
                }
            },
            NodeResult::Terminal(t) => {
                match self.resetter.after_terminal(input, &t) {
                    Some(n) => NodeResult::Nonterminal(
                        PostResetNonterm::EndReset(t),
                        PostResetNode { node: n, resetter: self.resetter },
                    ),
                    None => NodeResult::Terminal(t),
                }
            },
        }
    }
}

} // verus!
