use vstd::prelude::*;

verus! {

/// A two-case union distinguishing an in-progress ("nonterminal") value
/// from a final ("terminal") value. Used to classify the states a behavior
/// node steps through, and as the action type of automata that model a
/// process with an end state.
pub enum Statepoint<N, T> {
    /// A nonterminal state.
    Nonterminal(N),
    /// A terminal state.
    Terminal(T),
}

impl<N, T> Statepoint<N, T> {
    /// View the statepoint as a result, with nonterminal as the success
    /// case.
    pub fn into_result(self) -> (r: Result<N, T>)
        ensures
            match self {
                Statepoint::Nonterminal(n) => r == Ok::<N, T>(n),
                Statepoint::Terminal(t) => r == Err::<N, T>(t),
            },
    {
        match self {
            Statepoint::Nonterminal(n) => Ok(n),
            Statepoint::Terminal(t) => Err(t),
        }
    }

    /// Wrap a success value as a nonterminal statepoint.
    pub fn from_ok(nonterm: N) -> (r: Self)
        ensures
            r == Statepoint::<N, T>::Nonterminal(nonterm),
    {
        Statepoint::Nonterminal(nonterm)
    }

    /// Wrap an error value as a terminal statepoint.
    pub fn from_error(term: T) -> (r: Self)
        ensures
            r == Statepoint::<N, T>::Terminal(term),
    {
        Statepoint::Terminal(term)
    }
}

/// The return value of a behavior tree node's step. To statically prevent
/// further running after a node reaches a terminal state, the whole node is
/// taken by move during a step: at a nonterminal, the decision point value
/// is returned along with the updated node, while at a terminal, only the
/// terminal value is returned and the node instance is gone for good.
pub enum NodeResult<R, T, N> {
    /// A nonterminal state, along with the node itself.
    Nonterminal(R, N),
    /// A terminal state.
    Terminal(T),
}

impl<R, T, N> NodeResult<R, T, N> {
    /// View the node result as a result, with nonterminal as the success
    /// case.
    pub fn into_result(self) -> (r: Result<(R, N), T>)
        ensures
            match self {
                NodeResult::Nonterminal(v, n) => r == Ok::<(R, N), T>((v, n)),
                NodeResult::Terminal(t) => r == Err::<(R, N), T>(t),
            },
    {
        match self {
            NodeResult::Nonterminal(v, n) => Ok((v, n)),
            NodeResult::Terminal(t) => Err(t),
        }
    }

    /// Wrap a value and continuation as a nonterminal node result.
    pub fn from_ok(nonterm: (R, N)) -> (r: Self)
        ensures
            r == NodeResult::<R, T, N>::Nonterminal(nonterm.0, nonterm.1),
    {
        NodeResult::Nonterminal(nonterm.0, nonterm.1)
    }

    /// Wrap a terminal value as a terminal node result.
    pub fn from_error(term: T) -> (r: Self)
        ensures
            r == NodeResult::<R, T, N>::Terminal(term),
    {
        NodeResult::Terminal(term)
    }
}

/// The behavior tree node trait. A node value is *live* until its `step`
/// returns `Terminal`, after which no continuation is handed back, so the
/// caller cannot step that logical value again: terminal finality is
/// enforced by ownership transfer, not by a runtime check.
///
/// As with automata, `step_ok` is the node's step relation and the
/// executable `step` is proved to satisfy it; deterministic nodes pin the
/// relation down to a function of the consumed node and the input.
pub trait BehaviorTreeNode: Sized {
    /// Type of the input to take.
    type Input;
    /// Type of the nonterminal statepoints returned.
    type Nonterminal;
    /// Type of the terminal statepoints returned.
    type Terminal;

    /// Well-formedness of the node; established by constructors and
    /// preserved for the continuation of every step.
    spec fn inv(self) -> bool;

    /// The step relation: consuming the node with `input` may yield
    /// `result`.
    spec fn step_ok(
        self,
        input: Self::Input,
        result: NodeResult<Self::Nonterminal, Self::Terminal, Self>,
    ) -> bool;

    /// Given the input, perform a single step of the behavior node, either
    /// returning itself along with a nonterminal state, or returning a
    /// terminal state.
    fn step(self, input: &Self::Input) -> (result: NodeResult<
        Self::Nonterminal,
        Self::Terminal,
        Self,
    >)
        requires
            self.inv(),
        ensures
            self.step_ok(*input, result),
            result matches NodeResult::Nonterminal(_, n) ==> n.inv(),
    ;
}

} // verus!
