use vstd::prelude::*;
use crate::behavior_tree::behavior_tree_node::{BehaviorTreeNode, NodeResult};

verus! {

/// Trait for an enumeration of nodes, all of which have the same input,
/// nonterminals, and terminals. Each variant corresponds to a different
/// possible subnode of the enumerable supernode, tagged 1:1 with a
/// discriminant value; the discriminant a live instance reports always
/// matches the variant that was last constructed or switched to.
pub trait EnumNode: BehaviorTreeNode {
    /// The type used to enumerate the variants of implementations of this
    /// trait.
    type Discriminant: Copy;

    /// The freshly initialized node for a given discriminant.
    spec fn fresh_spec(variant: Self::Discriminant) -> Self;

    /// The discriminant of the variant this instance currently is.
    spec fn disc_spec(self) -> Self::Discriminant;

    /// Initialize a new node with the given discriminant value.
    fn new(variant: Self::Discriminant) -> (n: Self)
        ensures
            n == Self::fresh_spec(variant),
            n.inv(),
            n.disc_spec() == variant,
    ;

    /// Report the discriminant of the current variant.
    fn discriminant_of(&self) -> (d: Self::Discriminant)
        ensures
            d == self.disc_spec(),
    ;
}

/// Enumeration of the possible decisions when the child node reaches a
/// nonterminal state.
pub enum NontermDecision<E, T, X> {
    /// Step the current subnode.
    Step(T),
    /// Transition from the current subnode to a new one.
    Trans(E, T),
    /// Exit the current supernode entirely.
    Exit(X),
}

/// Enumeration of the possible decisions when the child node reaches a
/// terminal state. A terminal child always causes at least a variant
/// switch or an exit; it cannot simply keep stepping.
pub enum TermDecision<E, T, X> {
    /// Transition from the current subnode to a new one.
    Trans(E, T),
    /// Exit the current supernode entirely.
    Exit(X),
}

/// Return type of the `SerialBranchNode`: the discriminant that was active
/// and the child's value, tagged with whether the child kept running or
/// just finished.
pub enum NontermReturn<E, N, T> {
    /// Nonterminal of a subnode.
    Nonterminal(E, N),
    /// Terminal of a subnode.
    Terminal(E, T),
}

/// Trait for the transition behavior of a `SerialBranchNode`: the decision
/// policy consulted after every child step.
pub trait SerialDecider: Sized {
    /// Type of the enumerating discriminant.
    type Enum;
    /// Type of the inputs of the subnodes.
    type Input;
    /// Type of the nonterminals of the subnodes.
    type Nonterm;
    /// Type of the terminals of the subnodes.
    type Term;
    /// Supernode terminal type.
    type Exit;

    /// The mathematical description of the nonterminal decision.
    spec fn nonterm_spec(self, input: Self::Input, ordinal: Self::Enum, statept: Self::Nonterm)
        -> NontermDecision<Self::Enum, Self::Nonterm, Self::Exit>;

    /// The mathematical description of the terminal decision.
    spec fn term_spec(self, input: Self::Input, ordinal: Self::Enum, statept: Self::Term)
        -> TermDecision<Self::Enum, Self::Term, Self::Exit>;

    /// Given the input and the current nonterminal state, decide what to
    /// do from the nonterminal statepoint.
    fn on_nonterminal(&self, input: &Self::Input, ordinal: Self::Enum, statept: Self::Nonterm)
        -> (d: NontermDecision<Self::Enum, Self::Nonterm, Self::Exit>)
        ensures
            d == self.nonterm_spec(*input, ordinal, statept),
    ;

    /// Given the input and the current terminal state, decide what to do
    /// from the terminal statepoint.
    fn on_terminal(&self, input: &Self::Input, ordinal: Self::Enum, statept: Self::Term) -> (d:
        TermDecision<Self::Enum, Self::Term, Self::Exit>)
        ensures
            d == self.term_spec(*input, ordinal, statept),
    ;
}

/// A serial branch node: a decision policy on top of an enumerable node.
/// Execution proceeds along the live variant; on each nonterminal or
/// terminal of the child, the policy keeps it, switches to a freshly
/// constructed variant, or exits the whole supernode.
pub struct SerialBranchNode<E, D> where
    E: EnumNode,
    D: SerialDecider<
        Enum = E::Discriminant,
        Input = E::Input,
        Nonterm = E::Nonterminal,
        Term = E::Terminal,
    >,
 {
    /// The live instance of the enumerable node family.
    pub node: E,
    /// The decision policy.
    pub decider: D,
}

impl<E, D> SerialBranchNode<E, D> where
    E: EnumNode,
    D: SerialDecider<
        Enum = E::Discriminant,
        Input = E::Input,
        Nonterm = E::Nonterminal,
        Term = E::Terminal,
    >,
 {
    /// Create a new serial branch node for the given discriminant.
    pub fn new(decider: D, variant: E::Discriminant) -> (r: Self)
        ensures
            r == (SerialBranchNode { node: E::fresh_spec(variant), decider }),
            r.node.disc_spec() == variant,
            r.inv(),
    {
        SerialBranchNode { node: E::new(variant), decider }
    }

    /// Wrap an existing enumerated node in a serial branch node.
    pub fn from_existing(decider: D, existing: E) -> (r: Self)
        requires
            existing.inv(),
        ensures
            r == (SerialBranchNode { node: existing, decider }),
            r.inv(),
    {
        SerialBranchNode { node: existing, decider }
    }
}

impl<E, D> BehaviorTreeNode for SerialBranchNode<E, D> where
    E: EnumNode,
    D: SerialDecider<
        Enum = E::Discriminant,
        Input = E::Input,
        Nonterm = E::Nonterminal,
        Term = E::Terminal,
    >,
 {
    type Input = E::Input;
    type Nonterminal = NontermReturn<E::Discriminant, E::Nonterminal, E::Terminal>;
    type Terminal = D::Exit;

    open spec fn inv(self) -> bool {
        self.node.inv()
    }

    open spec fn step_ok(
        self,
        input: E::Input,
        result: NodeResult<Self::Nonterminal, D::Exit, Self>,
    ) -> bool {
        exists|r: NodeResult<E::Nonterminal, E::Terminal, E>|
            (#[trigger] self.node.step_ok(input, r)) && (match r {
                NodeResult::Nonterminal(v, n) => match self.decider.nonterm_spec(
                    input,
                    self.node.disc_spec(),
                    v,
                ) {
                    NontermDecision::Step(j) => result == NodeResult::<Self::Nonterminal, D::Exit,
                    Self>::Nonterminal(
                        NontermReturn::Nonterminal(self.node.disc_spec(), j),
                        SerialBranchNode { node: n, decider: self.decider },
                    ),
                    NontermDecision::Trans(e, j) => result == NodeResult::<Self::Nonterminal,
                    D::Exit, Self>::Nonterminal(
                        NontermReturn::Nonterminal(self.node.disc_spec(), j),
                        SerialBranchNode { node: E::fresh_spec(e), decider: self.decider },
                    ),
                    NontermDecision::Exit(x) => result == NodeResult::<Self::Nonterminal, D::Exit,
                    Self>::Terminal(x),
                },
                NodeResult::Terminal(v) => match self.decider.term_spec(
                    input,
                    self.node.disc_spec(),
                    v,
                ) {
                    TermDecision::Trans(e, j) => result == NodeResult::<Self::Nonterminal, D::Exit,
                    Self>::Nonterminal(
                        NontermReturn::Terminal(self.node.disc_spec(), j),
                        SerialBranchNode { node: E::fresh_spec(e), decider: self.decider },
                    ),
                    TermDecision::Exit(x) => result == NodeResult::<Self::Nonterminal, D::Exit,
                    Self>::Terminal(x),
                },
            })
    }

    fn step(self, input: &E::Input) -> (result: NodeResult<
        Self::Nonterminal,
        D::Exit,
        Self,
    >) {
        let discriminant = self.node.discriminant_of();
        match self.node.step(input) {
            NodeResult::Nonterminal(i, n) => {
                match self.decider.on_nonterminal(input, discriminant, i) {
                    NontermDecision::Step(j) => NodeResult::Nonterminal(
                        NontermReturn::Nonterminal(discriminant, j),
                        Self::from_existing(self.decider, n),
                    ),
                    NontermDecision::Trans(e, j) => NodeResult::Nonterminal(
                        NontermReturn::Nonterminal(discriminant, j),
                        Self::new(self.decider, e),
                    ),
                    NontermDecision::Exit(x) => NodeResult::Terminal(x),
                }
            },
            NodeResult::Terminal(i) => {
                match self.decider.on_terminal(input, discriminant, i) {
                    TermDecision::Trans(e, j) => NodeResult::Nonterminal(
                        NontermReturn::Terminal(discriminant, j),
                        Self::new(self.decider, e),
                    ),
                    TermDecision::Exit(x) => NodeResult::Terminal(x),
                }
            },
        }
    }
}

/// Serial discriminant fidelity: whenever a serial branch node reports a
/// nonterminal or terminal child result tagged with a discriminant, that
/// discriminant is exactly the one of the variant that was live when the
/// step began.
pub proof fn lemma_serial_reports_active_discriminant<E, D>(
    s: SerialBranchNode<E, D>,
    input: E::Input,
    ret: NontermReturn<E::Discriminant, E::Nonterminal, E::Terminal>,
    next: SerialBranchNode<E, D>,
) where
    E: EnumNode,
    D: SerialDecider<
        Enum = E::Discriminant,
        Input = E::Input,
        Nonterm = E::Nonterminal,
        Term = E::Terminal,
    >,

    requires
        s.step_ok(
            input,
            NodeResult::<
                NontermReturn<E::Discriminant, E::Nonterminal, E::Terminal>,
                D::Exit,
                SerialBranchNode<E, D>,
            >::Nonterminal(ret, next),
        ),
    ensures
        match ret {
            NontermReturn::Nonterminal(e, _) => e == s.node.disc_spec(),
            NontermReturn::Terminal(e, _) => e == s.node.disc_spec(),
        },
{
}

} // verus!
