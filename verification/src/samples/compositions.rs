use vstd::prelude::*;
use crate::automata_impl::automaton::Automaton;
use crate::automata_impl::internal_state_machine::{InternalStateMachine, InternalTransition};
use crate::automata_impl::ref_state_machine::{RefStateMachine, ReferenceTransition};
use crate::behavior_tree::base_nodes::{MachineWrapper, PredicateWait, WaitCondition};
use crate::behavior_tree::behavior_tree_node::{BehaviorTreeNode, NodeResult, Statepoint};
use crate::behavior_tree::map_wrappers::{OutputMappedNode, OutputNodeMap};
use crate::behavior_tree::node_compositions::EnumOrdinal;
use crate::behavior_tree::node_runner::NodeRunner;
use crate::behavior_tree::node_wrappers::CustomConstructor;
use crate::behavior_tree::parallel_node::ParallelDecider;
use crate::behavior_tree::heterogeneous_parallel_node::{
    NontermDecision as HpNontermDecision, ParallelBranchDecider, TermADecision, TermBDecision,
    TermBothDecision,
};
use crate::behavior_tree::heterogeneous_serial_node::{
    NontermDecision as HsNontermDecision, SerialBranchDecider, TermDecision as HsTermDecision,
};
use crate::behavior_tree::serial_node::{
    EnumNode, NontermDecision, SerialDecider, TermDecision,
};

verus! {

/// A two-variant discriminant, counted from zero.
#[derive(Clone, Copy, Debug, PartialEq, Eq)]
pub enum IndexEnum {
    /// The variant with ordinal zero.
    First,
    /// The variant with ordinal one.
    Second,
}

impl EnumOrdinal for IndexEnum {
    open spec fn ordinal_spec(self) -> u64 {
        match self {
            IndexEnum::First => 0,
            IndexEnum::Second => 1,
        }
    }

    open spec fn from_ordinal_spec(ordinal: u64) -> Option<Self> {
        if ordinal == 0 {
            Some(IndexEnum::First)
        } else if ordinal == 1 {
            Some(IndexEnum::Second)
        } else {
            None
        }
    }

    proof fn ordinal_zero_exists() {
    }

    fn to_u64(&self) -> (r: u64) {
        match self {
            IndexEnum::First => 0,
            IndexEnum::Second => 1,
        }
    }

    fn from_u64(ordinal: u64) -> (r: Option<Self>) {
        if ordinal == 0 {
            Some(IndexEnum::First)
        } else if ordinal == 1 {
            Some(IndexEnum::Second)
        } else {
            None
        }
    }
}

/// A transition that counts up while the input is not negative, reporting
/// the fresh count as a nonterminal, and terminates with the count on a
/// negative input.
#[derive(Clone, Copy)]
pub struct IndefiniteIncrement;

impl InternalTransition for IndefiniteIncrement {
    type Input = i64;
    type Internal = i64;
    type Action = Statepoint<i64, i64>;

    open spec fn step_spec(self, input: i64, state: i64) -> (Statepoint<i64, i64>, i64) {
        if input >= 0 {
            (Statepoint::Nonterminal(state.wrapping_add(1)), state.wrapping_add(1))
        } else {
            (Statepoint::Terminal(state), state)
        }
    }

    fn step(&self, input: &i64, state: &mut i64) -> (action: Statepoint<i64, i64>) {
        if *input >= 0 {
            *state = state.wrapping_add(1);
            Statepoint::Nonterminal(*state)
        } else {
            Statepoint::Terminal(*state)
        }
    }
}

/// The machine-wrapped counting node the composition samples drive.
pub type CounterNode = MachineWrapper<InternalStateMachine<IndefiniteIncrement>, i64, i64>;

/// A freshly started counting node.
pub open spec fn fresh_counter_spec() -> CounterNode {
    MachineWrapper {
        machine: InternalStateMachine { stepper: IndefiniteIncrement, internal: 0 },
        statepoint: core::marker::PhantomData,
    }
}

/// Build a freshly started counting node.
pub fn fresh_counter() -> (r: CounterNode)
    ensures
        r == fresh_counter_spec(),
        r.inv(),
{
    MachineWrapper::new(InternalStateMachine::new(IndefiniteIncrement, 0))
}

/// An enumerable family of two counting nodes, tagged by `IndexEnum`.
pub enum MultiMachine {
    /// The first counting slot.
    First(CounterNode),
    /// The second counting slot.
    Second(CounterNode),
}

impl BehaviorTreeNode for MultiMachine {
    type Input = i64;
    type Nonterminal = i64;
    type Terminal = i64;

    open spec fn inv(self) -> bool {
        match self {
            MultiMachine::First(n) => n.inv(),
            MultiMachine::Second(n) => n.inv(),
        }
    }

    open spec fn step_ok(self, input: i64, result: NodeResult<i64, i64, Self>) -> bool {
        match self {
            MultiMachine::First(n) => exists|r: NodeResult<i64, i64, CounterNode>|
                (#[trigger] n.step_ok(input, r)) && (match r {
                    NodeResult::Nonterminal(v, m) => result == NodeResult::<i64, i64,
                    Self>::Nonterminal(v, MultiMachine::First(m)),
                    NodeResult::Terminal(t) => result == NodeResult::<i64, i64, Self>::Terminal(t),
                }),
            MultiMachine::Second(n) => exists|r: NodeResult<i64, i64, CounterNode>|
                (#[trigger] n.step_ok(input, r)) && (match r {
                    NodeResult::Nonterminal(v, m) => result == NodeResult::<i64, i64,
                    Self>::Nonterminal(v, MultiMachine::Second(m)),
                    NodeResult::Terminal(t) => result == NodeResult::<i64, i64, Self>::Terminal(t),
                }),
        }
    }

    fn step(self, input: &i64) -> (result: NodeResult<i64, i64, Self>) {
        match self {
            MultiMachine::First(n) => match n.step(input) {
                NodeResult::Nonterminal(v, m) => NodeResult::Nonterminal(v, MultiMachine::First(m)),
                NodeResult::Terminal(t) => NodeResult::Terminal(t),
            },
            MultiMachine::Second(n) => match n.step(input) {
                NodeResult::Nonterminal(v, m) => NodeResult::Nonterminal(
                    v,
                    MultiMachine::Second(m),
                ),
                NodeResult::Terminal(t) => NodeResult::Terminal(t),
            },
        }
    }
}

impl EnumNode for MultiMachine {
    type Discriminant = IndexEnum;

    open spec fn fresh_spec(variant: IndexEnum) -> Self {
        match variant {
            IndexEnum::First => MultiMachine::First(fresh_counter_spec()),
            IndexEnum::Second => MultiMachine::Second(fresh_counter_spec()),
        }
    }

    open spec fn disc_spec(self) -> IndexEnum {
        match self {
            MultiMachine::First(_) => IndexEnum::First,
            MultiMachine::Second(_) => IndexEnum::Second,
        }
    }

    fn new(variant: IndexEnum) -> (n: Self) {
        match variant {
            IndexEnum::First => MultiMachine::First(fresh_counter()),
            IndexEnum::Second => MultiMachine::Second(fresh_counter()),
        }
    }

    fn discriminant_of(&self) -> (d: IndexEnum) {
        match self {
            MultiMachine::First(_) => IndexEnum::First,
            MultiMachine::Second(_) => IndexEnum::Second,
        }
    }
}

/// A statepoint separator: nonterminals pass through, a terminal counts
/// as a success only from two upward.
#[derive(Clone, Copy)]
pub struct ValSep;

impl OutputNodeMap for ValSep {
    type NontermIn = i64;
    type NontermOut = i64;
    type TermIn = i64;
    type TermOut = Option<i64>;

    open spec fn nonterm_map_spec(self, value: i64) -> i64 {
        value
    }

    open spec fn term_map_spec(self, value: i64) -> Option<i64> {
        if value >= 2 {
            Some(value)
        } else {
            None
        }
    }

    fn nonterminal_transform(&self, value: i64) -> (out: i64) {
        value
    }

    fn terminal_transform(&self, value: i64) -> (out: Option<i64>) {
        if value >= 2 {
            Some(value)
        } else {
            None
        }
    }
}

/// The counting node with its terminal filtered through `ValSep`.
pub type WrappedCounter = OutputMappedNode<CounterNode, ValSep>;

/// A freshly started filtered counting node.
pub open spec fn fresh_wrapped_counter_spec() -> WrappedCounter {
    OutputMappedNode { node: fresh_counter_spec(), mapper: ValSep }
}

/// Build a freshly started filtered counting node.
pub fn fresh_wrapped_counter() -> (r: WrappedCounter)
    ensures
        r == fresh_wrapped_counter_spec(),
        r.inv(),
{
    OutputMappedNode::new(ValSep, fresh_counter())
}

/// An enumerable family of two filtered counting nodes, tagged by
/// `IndexEnum`.
pub enum WrappedMachine {
    /// The first filtered counting slot.
    First(WrappedCounter),
    /// The second filtered counting slot.
    Second(WrappedCounter),
}

impl BehaviorTreeNode for WrappedMachine {
    type Input = i64;
    type Nonterminal = i64;
    type Terminal = Option<i64>;

    open spec fn inv(self) -> bool {
        match self {
            WrappedMachine::First(n) => n.inv(),
            WrappedMachine::Second(n) => n.inv(),
        }
    }

    open spec fn step_ok(self, input: i64, result: NodeResult<i64, Option<i64>, Self>) -> bool {
        match self {
            WrappedMachine::First(n) => exists|r: NodeResult<i64, Option<i64>, WrappedCounter>|
                (#[trigger] n.step_ok(input, r)) && (match r {
                    NodeResult::Nonterminal(v, m) => result == NodeResult::<i64, Option<i64>,
                    Self>::Nonterminal(v, WrappedMachine::First(m)),
                    NodeResult::Terminal(t) => result == NodeResult::<i64, Option<i64>,
                    Self>::Terminal(t),
                }),
            WrappedMachine::Second(n) => exists|r: NodeResult<i64, Option<i64>, WrappedCounter>|
                (#[trigger] n.step_ok(input, r)) && (match r {
                    NodeResult::Nonterminal(v, m) => result == NodeResult::<i64, Option<i64>,
                    Self>::Nonterminal(v, WrappedMachine::Second(m)),
                    NodeResult::Terminal(t) => result == NodeResult::<i64, Option<i64>,
                    Self>::Terminal(t),
                }),
        }
    }

    fn step(self, input: &i64) -> (result: NodeResult<i64, Option<i64>, Self>) {
        match self {
            WrappedMachine::First(n) => match n.step(input) {
                NodeResult::Nonterminal(v, m) => NodeResult::Nonterminal(
                    v,
                    WrappedMachine::First(m),
                ),
                NodeResult::Terminal(t) => NodeResult::Terminal(t),
            },
            WrappedMachine::Second(n) => match n.step(input) {
                NodeResult::Nonterminal(v, m) => NodeResult::Nonterminal(
                    v,
                    WrappedMachine::Second(m),
                ),
                NodeResult::Terminal(t) => NodeResult::Terminal(t),
            },
        }
    }
}

impl EnumNode for WrappedMachine {
    type Discriminant = IndexEnum;

    open spec fn fresh_spec(variant: IndexEnum) -> Self {
        match variant {
            IndexEnum::First => WrappedMachine::First(fresh_wrapped_counter_spec()),
            IndexEnum::Second => WrappedMachine::Second(fresh_wrapped_counter_spec()),
        }
    }

    open spec fn disc_spec(self) -> IndexEnum {
        match self {
            WrappedMachine::First(_) => IndexEnum::First,
            WrappedMachine::Second(_) => IndexEnum::Second,
        }
    }

    fn new(variant: IndexEnum) -> (n: Self) {
        match variant {
            IndexEnum::First => WrappedMachine::First(fresh_wrapped_counter()),
            IndexEnum::Second => WrappedMachine::Second(fresh_wrapped_counter()),
        }
    }

    fn discriminant_of(&self) -> (d: IndexEnum) {
        match self {
            WrappedMachine::First(_) => IndexEnum::First,
            WrappedMachine::Second(_) => IndexEnum::Second,
        }
    }
}

/// A wait condition that repeats inputs while they are not negative and
/// terminates on a negative one, reporting the input either way.
#[derive(Clone, Copy)]
pub struct PositiveRepeater;

impl WaitCondition for PositiveRepeater {
    type Input = i64;
    type Nonterminal = i64;
    type Terminal = i64;

    open spec fn end_spec(self, input: i64) -> Statepoint<i64, i64> {
        if input >= 0 {
            Statepoint::Nonterminal(input)
        } else {
            Statepoint::Terminal(input)
        }
    }

    fn do_end(&self, input: &i64) -> (r: Statepoint<i64, i64>) {
        if *input >= 0 {
            Statepoint::Nonterminal(*input)
        } else {
            Statepoint::Terminal(*input)
        }
    }
}

/// A wait condition like `PositiveRepeater` but reporting the negated
/// input, wrapping on overflow.
#[derive(Clone, Copy)]
pub struct NegativeRepeater;

impl WaitCondition for NegativeRepeater {
    type Input = i64;
    type Nonterminal = i64;
    type Terminal = i64;

    open spec fn end_spec(self, input: i64) -> Statepoint<i64, i64> {
        if input >= 0 {
            Statepoint::Nonterminal((0i64).wrapping_sub(input))
        } else {
            Statepoint::Terminal((0i64).wrapping_sub(input))
        }
    }

    fn do_end(&self, input: &i64) -> (r: Statepoint<i64, i64>) {
        if *input >= 0 {
            Statepoint::Nonterminal((0i64).wrapping_sub(*input))
        } else {
            Statepoint::Terminal((0i64).wrapping_sub(*input))
        }
    }
}

/// A two-variant discriminant for the repeater family.
#[derive(Clone, Copy)]
pub enum PosNegEnum {
    /// The positively reporting variant.
    Positive,
    /// The negatively reporting variant.
    Negative,
}

/// An enumerable family over the two repeater wait nodes.
pub enum PosNegMachine {
    /// The positively reporting repeater.
    Positive(PredicateWait<PositiveRepeater>),
    /// The negatively reporting repeater.
    Negative(PredicateWait<NegativeRepeater>),
}

impl BehaviorTreeNode for PosNegMachine {
    type Input = i64;
    type Nonterminal = i64;
    type Terminal = i64;

    open spec fn inv(self) -> bool {
        true
    }

    open spec fn step_ok(self, input: i64, result: NodeResult<i64, i64, Self>) -> bool {
        match self {
            PosNegMachine::Positive(n) => exists|r: NodeResult<i64, i64, PredicateWait<PositiveRepeater>>|
                (#[trigger] n.step_ok(input, r)) && (match r {
                    NodeResult::Nonterminal(v, m) => result == NodeResult::<i64, i64,
                    Self>::Nonterminal(v, PosNegMachine::Positive(m)),
                    NodeResult::Terminal(t) => result == NodeResult::<i64, i64, Self>::Terminal(t),
                }),
            PosNegMachine::Negative(n) => exists|r: NodeResult<i64, i64, PredicateWait<NegativeRepeater>>|
                (#[trigger] n.step_ok(input, r)) && (match r {
                    NodeResult::Nonterminal(v, m) => result == NodeResult::<i64, i64,
                    Self>::Nonterminal(v, PosNegMachine::Negative(m)),
                    NodeResult::Terminal(t) => result == NodeResult::<i64, i64, Self>::Terminal(t),
                }),
        }
    }

    fn step(self, input: &i64) -> (result: NodeResult<i64, i64, Self>) {
        match self {
            PosNegMachine::Positive(n) => match n.step(input) {
                NodeResult::Nonterminal(v, m) => NodeResult::Nonterminal(
                    v,
                    PosNegMachine::Positive(m),
                ),
                NodeResult::Terminal(t) => NodeResult::Terminal(t),
            },
            PosNegMachine::Negative(n) => match n.step(input) {
                NodeResult::Nonterminal(v, m) => NodeResult::Nonterminal(
                    v,
                    PosNegMachine::Negative(m),
                ),
                NodeResult::Terminal(t) => NodeResult::Terminal(t),
            },
        }
    }
}

impl EnumNode for PosNegMachine {
    type Discriminant = PosNegEnum;

    open spec fn fresh_spec(variant: PosNegEnum) -> Self {
        match variant {
            PosNegEnum::Positive => PosNegMachine::Positive(
                PredicateWait { condition: PositiveRepeater },
            ),
            PosNegEnum::Negative => PosNegMachine::Negative(
                PredicateWait { condition: NegativeRepeater },
            ),
        }
    }

    open spec fn disc_spec(self) -> PosNegEnum {
        match self {
            PosNegMachine::Positive(_) => PosNegEnum::Positive,
            PosNegMachine::Negative(_) => PosNegEnum::Negative,
        }
    }

    fn new(variant: PosNegEnum) -> (n: Self) {
        match variant {
            PosNegEnum::Positive => PosNegMachine::Positive(PredicateWait::new(PositiveRepeater)),
            PosNegEnum::Negative => PosNegMachine::Negative(PredicateWait::new(NegativeRepeater)),
        }
    }

    fn discriminant_of(&self) -> (d: PosNegEnum) {
        match self {
            PosNegMachine::Positive(_) => PosNegEnum::Positive,
            PosNegMachine::Negative(_) => PosNegEnum::Negative,
        }
    }
}

/// A serial policy that keeps the live repeater stepping and, whenever it
/// terminates, switches to the other variant, never exiting.
#[derive(Clone, Copy)]
pub struct Switcharound;

impl SerialDecider for Switcharound {
    type Enum = PosNegEnum;
    type Input = i64;
    type Nonterm = i64;
    type Term = i64;
    type Exit = ();

    open spec fn nonterm_spec(self, input: i64, ordinal: PosNegEnum, statept: i64)
        -> NontermDecision<PosNegEnum, i64, ()> {
        NontermDecision::Step(statept)
    }

    open spec fn term_spec(self, input: i64, ordinal: PosNegEnum, statept: i64) -> TermDecision<
        PosNegEnum,
        i64,
        (),
    > {
        match ordinal {
            PosNegEnum::Positive => TermDecision::Trans(PosNegEnum::Negative, statept),
            PosNegEnum::Negative => TermDecision::Trans(PosNegEnum::Positive, statept),
        }
    }

    fn on_nonterminal(&self, input: &i64, ordinal: PosNegEnum, statept: i64) -> (d:
        NontermDecision<PosNegEnum, i64, ()>) {
        NontermDecision::Step(statept)
    }

    fn on_terminal(&self, input: &i64, ordinal: PosNegEnum, statept: i64) -> (d: TermDecision<
        PosNegEnum,
        i64,
        (),
    >) {
        match ordinal {
            PosNegEnum::Positive => TermDecision::Trans(PosNegEnum::Negative, statept),
            PosNegEnum::Negative => TermDecision::Trans(PosNegEnum::Positive, statept),
        }
    }
}

/// A self-consuming machine cycling through two states, reporting a
/// terminal statepoint on every second tick.
#[derive(Clone, Copy)]
pub enum TwoCycler {
    /// The first state, reporting a nonterminal.
    First,
    /// The second state, reporting a terminal.
    Second,
}

impl ReferenceTransition for TwoCycler {
    type Input = ();
    type Action = Statepoint<(), ()>;

    open spec fn step_spec(self, input: ()) -> (Statepoint<(), ()>, Self) {
        match self {
            TwoCycler::First => (Statepoint::Nonterminal(()), TwoCycler::Second),
            TwoCycler::Second => (Statepoint::Terminal(()), TwoCycler::First),
        }
    }

    fn step(self, input: &()) -> (r: (Statepoint<(), ()>, Self)) {
        match self {
            TwoCycler::First => (Statepoint::Nonterminal(()), TwoCycler::Second),
            TwoCycler::Second => (Statepoint::Terminal(()), TwoCycler::First),
        }
    }
}

/// A self-consuming machine cycling through three states, reporting a
/// terminal statepoint on every third tick.
#[derive(Clone, Copy)]
pub enum ThreeCycler {
    /// The first state, reporting a nonterminal.
    First,
    /// The second state, reporting a nonterminal.
    Second,
    /// The third state, reporting a terminal.
    Third,
}

impl ReferenceTransition for ThreeCycler {
    type Input = ();
    type Action = Statepoint<(), ()>;

    open spec fn step_spec(self, input: ()) -> (Statepoint<(), ()>, Self) {
        match self {
            ThreeCycler::First => (Statepoint::Nonterminal(()), ThreeCycler::Second),
            ThreeCycler::Second => (Statepoint::Nonterminal(()), ThreeCycler::Third),
            ThreeCycler::Third => (Statepoint::Terminal(()), ThreeCycler::First),
        }
    }

    fn step(self, input: &()) -> (r: (Statepoint<(), ()>, Self)) {
        match self {
            ThreeCycler::First => (Statepoint::Nonterminal(()), ThreeCycler::Second),
            ThreeCycler::Second => (Statepoint::Nonterminal(()), ThreeCycler::Third),
            ThreeCycler::Third => (Statepoint::Terminal(()), ThreeCycler::First),
        }
    }
}

/// A pair of cyclers stepped in lockstep, presenting each tick's two
/// statepoints as the trap-aware vector a `ParallelRunner` inspects: both
/// entries arrive wrapped as nonterminals, a cycler's own terminal
/// statepoint marking its trap state.
#[derive(Clone, Copy)]
pub struct CyclePair {
    /// The two-state cycler.
    pub first: RefStateMachine<TwoCycler>,
    /// The three-state cycler.
    pub second: RefStateMachine<ThreeCycler>,
}

impl CyclePair {
    /// Start both cyclers from their first states.
    pub fn new() -> (r: Self)
        ensures
            r == (CyclePair {
                first: RefStateMachine { current_state: Some(TwoCycler::First) },
                second: RefStateMachine { current_state: Some(ThreeCycler::First) },
            }),
            r.inv(),
    {
        CyclePair {
            first: RefStateMachine::new(TwoCycler::First),
            second: RefStateMachine::new(ThreeCycler::First),
        }
    }
}

impl Automaton for CyclePair {
    type Input = ();
    type Action = Vec<Statepoint<Statepoint<(), ()>, ()>>;

    open spec fn inv(self) -> bool {
        self.first.inv() && self.second.inv()
    }

    open spec fn step_ok(
        self,
        input: (),
        action: Vec<Statepoint<Statepoint<(), ()>, ()>>,
        next: Self,
    ) -> bool {
        exists|a1: Statepoint<(), ()>, f2: RefStateMachine<TwoCycler>, a2: Statepoint<(), ()>, s2: RefStateMachine<ThreeCycler>|
            {
                &&& #[trigger] self.first.step_ok(input, a1, f2)
                &&& #[trigger] self.second.step_ok(input, a2, s2)
                &&& action@ == seq![
                    Statepoint::<Statepoint<(), ()>, ()>::Nonterminal(a1),
                    Statepoint::<Statepoint<(), ()>, ()>::Nonterminal(a2),
                ]
                &&& next == (CyclePair { first: f2, second: s2 })
            }
    }

    fn transition(&mut self, input: &()) -> (action: Vec<Statepoint<Statepoint<(), ()>, ()>>) {
        let a1 = self.first.transition(input);
        let a2 = self.second.transition(input);
        let mut out: Vec<Statepoint<Statepoint<(), ()>, ()>> = Vec::new();
        out.push(Statepoint::Nonterminal(a1));
        out.push(Statepoint::Nonterminal(a2));
        proof {
            assert(out@ =~= seq![
                Statepoint::<Statepoint<(), ()>, ()>::Nonterminal(a1),
                Statepoint::<Statepoint<(), ()>, ()>::Nonterminal(a2),
            ]);
        }
        out
    }
}

/// A self-consuming machine cycling through five states, reporting a
/// terminal statepoint on every fifth tick.
#[derive(Clone, Copy)]
pub struct FiveCycler {
    /// How many ticks of the current cycle have passed, zero to four.
    pub count: u8,
}

impl ReferenceTransition for FiveCycler {
    type Input = ();
    type Action = Statepoint<(), ()>;

    open spec fn step_spec(self, input: ()) -> (Statepoint<(), ()>, Self) {
        if self.count >= 4 {
            (Statepoint::Terminal(()), FiveCycler { count: 0 })
        } else {
            (Statepoint::Nonterminal(()), FiveCycler { count: (self.count + 1) as u8 })
        }
    }

    fn step(self, input: &()) -> (r: (Statepoint<(), ()>, Self)) {
        if self.count >= 4 {
            (Statepoint::Terminal(()), FiveCycler { count: 0 })
        } else {
            (Statepoint::Nonterminal(()), FiveCycler { count: self.count + 1 })
        }
    }
}

/// A racing pair: one child that terminates on its second tick beside one
/// that terminates on its fifth, each tick's two statepoints presented
/// directly, as a `ParallelRacer` expects.
#[derive(Clone, Copy)]
pub struct RacingCyclePair {
    /// The two-state cycler.
    pub first: RefStateMachine<TwoCycler>,
    /// The five-state cycler.
    pub second: RefStateMachine<FiveCycler>,
}

impl RacingCyclePair {
    /// Start both cyclers from their first states.
    pub fn new() -> (r: Self)
        ensures
            r == (RacingCyclePair {
                first: RefStateMachine { current_state: Some(TwoCycler::First) },
                second: RefStateMachine { current_state: Some(FiveCycler { count: 0 }) },
            }),
            r.inv(),
    {
        RacingCyclePair {
            first: RefStateMachine::new(TwoCycler::First),
            second: RefStateMachine::new(FiveCycler { count: 0 }),
        }
    }
}

impl Automaton for RacingCyclePair {
    type Input = ();
    type Action = Vec<Statepoint<(), ()>>;

    open spec fn inv(self) -> bool {
        self.first.inv() && self.second.inv()
    }

    open spec fn step_ok(
        self,
        input: (),
        action: Vec<Statepoint<(), ()>>,
        next: Self,
    ) -> bool {
        exists|a1: Statepoint<(), ()>, f2: RefStateMachine<TwoCycler>, a2: Statepoint<(), ()>, s2: RefStateMachine<FiveCycler>|
            {
                &&& #[trigger] self.first.step_ok(input, a1, f2)
                &&& #[trigger] self.second.step_ok(input, a2, s2)
                &&& action@ == seq![a1, a2]
                &&& next == (RacingCyclePair { first: f2, second: s2 })
            }
    }

    fn transition(&mut self, input: &()) -> (action: Vec<Statepoint<(), ()>>) {
        let a1 = self.first.transition(input);
        let a2 = self.second.transition(input);
        let mut out: Vec<Statepoint<(), ()>> = Vec::new();
        out.push(a1);
        out.push(a2);
        proof {
            assert(out@ =~= seq![a1, a2]);
        }
        out
    }
}

/// The machine-wrapped three-state cycler: a node that terminates on
/// every third tick.
pub type ThreeTickNode = MachineWrapper<RefStateMachine<ThreeCycler>, (), ()>;

/// An eager node constructor for a freshly started three-tick node.
#[derive(Clone, Copy)]
pub struct ThreeTickConstructor;

impl CustomConstructor for ThreeTickConstructor {
    type Creates = ThreeTickNode;

    open spec fn create_spec(self) -> ThreeTickNode {
        MachineWrapper {
            machine: RefStateMachine { current_state: Some(ThreeCycler::First) },
            statepoint: core::marker::PhantomData,
        }
    }

    fn create(&self) -> (node: ThreeTickNode) {
        MachineWrapper::new(RefStateMachine::new(ThreeCycler::First))
    }
}

/// A transition that counts up while the input is positive, reporting the
/// fresh count, and terminates with a reset count of zero otherwise.
#[derive(Clone, Copy)]
pub struct ResettingIncrement;

impl InternalTransition for ResettingIncrement {
    type Input = i64;
    type Internal = i64;
    type Action = Statepoint<i64, i64>;

    open spec fn step_spec(self, input: i64, state: i64) -> (Statepoint<i64, i64>, i64) {
        if input > 0 {
            (Statepoint::Nonterminal(state.wrapping_add(1)), state.wrapping_add(1))
        } else {
            (Statepoint::Terminal(0), 0)
        }
    }

    fn step(&self, input: &i64, state: &mut i64) -> (action: Statepoint<i64, i64>) {
        if *input > 0 {
            *state = state.wrapping_add(1);
            Statepoint::Nonterminal(*state)
        } else {
            *state = 0;
            Statepoint::Terminal(0)
        }
    }
}

/// The machine-wrapped resetting counter driven by the parallel node
/// samples.
pub type ResetCounterNode = MachineWrapper<InternalStateMachine<ResettingIncrement>, i64, i64>;

/// An eager node constructor for a freshly started resetting counter.
#[derive(Clone, Copy)]
pub struct ResetCounterConstructor;

impl CustomConstructor for ResetCounterConstructor {
    type Creates = ResetCounterNode;

    open spec fn create_spec(self) -> ResetCounterNode {
        MachineWrapper {
            machine: InternalStateMachine { stepper: ResettingIncrement, internal: 0 },
            statepoint: core::marker::PhantomData,
        }
    }

    fn create(&self) -> (node: ResetCounterNode) {
        MachineWrapper::new(InternalStateMachine::new(ResettingIncrement, 0))
    }
}

/// Two auto-restarting resetting counters stepped each tick, the first
/// with the input itself and the second with its negation, their
/// statepoints collected in order.
pub struct RunnerPair {
    /// The counter fed the input.
    pub first: NodeRunner<ResetCounterNode, ResetCounterConstructor>,
    /// The counter fed the negated input.
    pub second: NodeRunner<ResetCounterNode, ResetCounterConstructor>,
}

impl RunnerPair {
    /// Start both counters fresh.
    pub fn new() -> (r: Self)
        ensures
            r.first.constructor == ResetCounterConstructor,
            r.first.node == Some(ResetCounterConstructor.create_spec()),
            r.second.constructor == ResetCounterConstructor,
            r.second.node == Some(ResetCounterConstructor.create_spec()),
            r.inv(),
    {
        RunnerPair {
            first: NodeRunner::new(ResetCounterConstructor),
            second: NodeRunner::new(ResetCounterConstructor),
        }
    }
}

impl Automaton for RunnerPair {
    type Input = i64;
    type Action = Vec<Statepoint<i64, i64>>;

    open spec fn inv(self) -> bool {
        self.first.inv() && self.second.inv()
    }

    open spec fn step_ok(
        self,
        input: i64,
        action: Vec<Statepoint<i64, i64>>,
        next: Self,
    ) -> bool {
        exists|a1: Statepoint<i64, i64>, f2: NodeRunner<ResetCounterNode, ResetCounterConstructor>, a2: Statepoint<i64, i64>, s2: NodeRunner<ResetCounterNode, ResetCounterConstructor>|
            {
                &&& #[trigger] self.first.step_ok(input, a1, f2)
                &&& #[trigger] self.second.step_ok((0i64).wrapping_sub(input), a2, s2)
                &&& action@ == seq![a1, a2]
                &&& next == (RunnerPair { first: f2, second: s2 })
            }
    }

    fn transition(&mut self, input: &i64) -> (action: Vec<Statepoint<i64, i64>>) {
        let a1 = self.first.transition(input);
        let ghost a1_snap = a1;
        let ghost first_after = self.first;
        let negated = (0i64).wrapping_sub(*input);
        let a2 = self.second.transition(&negated);
        let ghost a2_snap = a2;
        let ghost second_after = self.second;
        let mut out: Vec<Statepoint<i64, i64>> = Vec::new();
        out.push(a1);
        out.push(a2);
        proof {
            assert(old(self).first.step_ok(*input, a1_snap, first_after));
            assert(old(self).second.step_ok((0i64).wrapping_sub(*input), a2_snap, second_after));
            assert(out@ =~= seq![a1_snap, a2_snap]);
            assert(*self == (RunnerPair { first: first_after, second: second_after }));
        }
        out
    }
}

/// A parallel policy that keeps forwarding the statepoint vector while
/// the input is nonzero, and exits on a zero input.
#[derive(Clone, Copy)]
pub struct MagicNumDecider;

impl ParallelDecider for MagicNumDecider {
    type Input = i64;
    type Nonterm = i64;
    type Term = i64;
    type Exit = ();

    open spec fn each_step_ok(
        self,
        input: i64,
        states: Vec<Statepoint<i64, i64>>,
        result: Statepoint<Vec<Statepoint<i64, i64>>, ()>,
    ) -> bool {
        if input == 0 {
            result == Statepoint::<Vec<Statepoint<i64, i64>>, ()>::Terminal(())
        } else {
            result == Statepoint::<Vec<Statepoint<i64, i64>>, ()>::Nonterminal(states)
        }
    }

    fn each_step(&self, input: &i64, states: Vec<Statepoint<i64, i64>>) -> (result: Statepoint<
        Vec<Statepoint<i64, i64>>,
        (),
    >) {
        if *input == 0 {
            Statepoint::Terminal(())
        } else {
            Statepoint::Nonterminal(states)
        }
    }
}


/// A serial policy over the two repeater kinds: the first kind runs until
/// it terminates, a fresh second kind then takes over, and the second
/// kind's terminal value exits the supernode.
#[derive(Clone, Copy)]
pub struct SwitchToOther;

impl SerialBranchDecider<PredicateWait<PositiveRepeater>, PredicateWait<NegativeRepeater>, i64>
    for SwitchToOther {
    open spec fn a_nonterm_spec(statept: i64) -> HsNontermDecision<
        PredicateWait<PositiveRepeater>,
        PredicateWait<NegativeRepeater>,
        i64,
    > {
        HsNontermDecision::Step
    }

    open spec fn b_nonterm_spec(statept: i64) -> HsNontermDecision<
        PredicateWait<PositiveRepeater>,
        PredicateWait<NegativeRepeater>,
        i64,
    > {
        HsNontermDecision::Step
    }

    open spec fn a_term_spec(statept: i64) -> HsTermDecision<
        PredicateWait<PositiveRepeater>,
        PredicateWait<NegativeRepeater>,
        i64,
    > {
        HsTermDecision::TransB(PredicateWait { condition: NegativeRepeater })
    }

    open spec fn b_term_spec(statept: i64) -> HsTermDecision<
        PredicateWait<PositiveRepeater>,
        PredicateWait<NegativeRepeater>,
        i64,
    > {
        HsTermDecision::Exit(statept)
    }

    fn on_a_nonterminal(statept: &i64) -> (d: HsNontermDecision<
        PredicateWait<PositiveRepeater>,
        PredicateWait<NegativeRepeater>,
        i64,
    >) {
        HsNontermDecision::Step
    }

    fn on_b_nonterminal(statept: &i64) -> (d: HsNontermDecision<
        PredicateWait<PositiveRepeater>,
        PredicateWait<NegativeRepeater>,
        i64,
    >) {
        HsNontermDecision::Step
    }

    fn on_a_terminal(statept: &i64) -> (d: HsTermDecision<
        PredicateWait<PositiveRepeater>,
        PredicateWait<NegativeRepeater>,
        i64,
    >) {
        HsTermDecision::TransB(PredicateWait::new(NegativeRepeater))
    }

    fn on_b_terminal(statept: &i64) -> (d: HsTermDecision<
        PredicateWait<PositiveRepeater>,
        PredicateWait<NegativeRepeater>,
        i64,
    >) {
        HsTermDecision::Exit(*statept)
    }
}

/// A parallel policy over the two repeater kinds: a child that terminates
/// alone is refilled with a fresh instance of its kind, and the supernode
/// exits with the pair of terminal values once both terminate on the same
/// tick.
#[derive(Clone, Copy)]
pub struct RefillBoth;

impl ParallelBranchDecider<PredicateWait<PositiveRepeater>, PredicateWait<NegativeRepeater>, (
    i64,
    i64,
)> for RefillBoth {
    open spec fn nonterm_spec(a: i64, b: i64) -> HpNontermDecision<
        PredicateWait<PositiveRepeater>,
        PredicateWait<NegativeRepeater>,
        (i64, i64),
    > {
        HpNontermDecision::Step
    }

    open spec fn a_term_spec(a: i64, b: i64) -> TermADecision<
        PredicateWait<PositiveRepeater>,
        PredicateWait<NegativeRepeater>,
        (i64, i64),
    > {
        TermADecision::StepB(PredicateWait { condition: PositiveRepeater })
    }

    open spec fn b_term_spec(a: i64, b: i64) -> TermBDecision<
        PredicateWait<PositiveRepeater>,
        PredicateWait<NegativeRepeater>,
        (i64, i64),
    > {
        TermBDecision::StepA(PredicateWait { condition: NegativeRepeater })
    }

    open spec fn both_term_spec(a: i64, b: i64) -> TermBothDecision<
        PredicateWait<PositiveRepeater>,
        PredicateWait<NegativeRepeater>,
        (i64, i64),
    > {
        TermBothDecision::Exit((a, b))
    }

    fn on_nonterm(a: &i64, b: &i64) -> (d: HpNontermDecision<
        PredicateWait<PositiveRepeater>,
        PredicateWait<NegativeRepeater>,
        (i64, i64),
    >) {
        HpNontermDecision::Step
    }

    fn on_aterm(a: &i64, b: &i64) -> (d: TermADecision<
        PredicateWait<PositiveRepeater>,
        PredicateWait<NegativeRepeater>,
        (i64, i64),
    >) {
        TermADecision::StepB(PredicateWait::new(PositiveRepeater))
    }

    fn on_bterm(a: &i64, b: &i64) -> (d: TermBDecision<
        PredicateWait<PositiveRepeater>,
        PredicateWait<NegativeRepeater>,
        (i64, i64),
    >) {
        TermBDecision::StepA(PredicateWait::new(NegativeRepeater))
    }

    fn on_bothterm(a: &i64, b: &i64) -> (d: TermBothDecision<
        PredicateWait<PositiveRepeater>,
        PredicateWait<NegativeRepeater>,
        (i64, i64),
    >) {
        TermBothDecision::Exit((*a, *b))
    }
}

} // verus!

