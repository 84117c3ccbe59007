use vstd::prelude::*;
use crate::automata_impl::internal_state_machine::{InternalStateMachine, InternalTransition};
use crate::automata_impl::ref_state_machine::{RefStateMachine, ReferenceTransition};
use crate::behavior_tree::base_nodes::{CallWrapper, MachineWrapper, PredicateWait, WaitCondition};
use crate::behavior_tree::behavior_tree_node::{BehaviorTreeNode, Statepoint};
use crate::behavior_tree::control_wrappers::{
    NodeGuard, PostResetControl, StepControl, StepDecision,
};
use crate::behavior_tree::map_wrappers::{InputNodeMap, LazyConstructor, OutputNodeMap};
use crate::behavior_tree::node_wrappers::CustomConstructor;
use crate::samples::machines::{Incrementer, Negator};

verus! {

/// A wait condition that ends exactly on a zero input, with unit
/// statepoints.
#[derive(Clone, Copy)]
pub struct ZeroEnds;

impl WaitCondition for ZeroEnds {
    type Input = i64;
    type Nonterminal = ();
    type Terminal = ();

    open spec fn end_spec(self, input: i64) -> Statepoint<(), ()> {
        if input == 0 {
            Statepoint::Terminal(())
        } else {
            Statepoint::Nonterminal(())
        }
    }

    fn do_end(&self, input: &i64) -> (r: Statepoint<(), ()>) {
        if *input == 0 {
            Statepoint::Terminal(())
        } else {
            Statepoint::Nonterminal(())
        }
    }
}

/// A wait condition that keeps running on positive inputs and ends on any
/// other, either way reporting the input itself.
#[derive(Clone, Copy)]
pub struct PositiveWait;

impl WaitCondition for PositiveWait {
    type Input = i64;
    type Nonterminal = i64;
    type Terminal = i64;

    open spec fn end_spec(self, input: i64) -> Statepoint<i64, i64> {
        if input > 0 {
            Statepoint::Nonterminal(input)
        } else {
            Statepoint::Terminal(input)
        }
    }

    fn do_end(&self, input: &i64) -> (r: Statepoint<i64, i64>) {
        if *input > 0 {
            Statepoint::Nonterminal(*input)
        } else {
            Statepoint::Terminal(*input)
        }
    }
}

/// A call wrapper that returns its input unchanged.
#[derive(Clone, Copy)]
pub struct EchoCall;

impl CallWrapper for EchoCall {
    type Input = i64;
    type Output = i64;

    open spec fn call_spec(self, input: i64) -> i64 {
        input
    }

    fn call(&self, input: &i64) -> (r: i64) {
        *input
    }
}

/// A transition for a machine-wrapped leaf: a zero increment ends with
/// the accumulated total, any other reports the total so far and then
/// adds the increment, wrapping on overflow.
#[derive(Clone, Copy)]
pub struct ThingLeaf;

impl InternalTransition for ThingLeaf {
    type Input = i64;
    type Internal = i64;
    type Action = Statepoint<i64, i64>;

    open spec fn step_spec(self, input: i64, state: i64) -> (Statepoint<i64, i64>, i64) {
        if input == 0 {
            (Statepoint::Terminal(state), state)
        } else {
            (Statepoint::Nonterminal(state), state.wrapping_add(input))
        }
    }

    fn step(&self, input: &i64, state: &mut i64) -> (action: Statepoint<i64, i64>) {
        if *input == 0 {
            Statepoint::Terminal(*state)
        } else {
            let orig = *state;
            *state = state.wrapping_add(*input);
            Statepoint::Nonterminal(orig)
        }
    }
}

/// A four-notch ratchet: inputs one to three jump it to the matching
/// notch, it never goes back, and the last notch is terminal.
#[derive(Clone, Copy)]
pub enum Ratchet {
    /// The starting notch.
    Zero,
    /// The first notch.
    One,
    /// The second notch.
    Two,
    /// The final, terminal notch.
    Three,
}

impl ReferenceTransition for Ratchet {
    type Input = i64;
    type Action = Statepoint<i64, ()>;

    open spec fn step_spec(self, input: i64) -> (Statepoint<i64, ()>, Self) {
        match self {
            Ratchet::Zero => if input == 3 {
                (Statepoint::Nonterminal(3), Ratchet::Three)
            } else if input == 2 {
                (Statepoint::Nonterminal(2), Ratchet::Two)
            } else if input == 1 {
                (Statepoint::Nonterminal(1), Ratchet::One)
            } else {
                (Statepoint::Nonterminal(0), Ratchet::Zero)
            },
            Ratchet::One => if input == 3 {
                (Statepoint::Nonterminal(3), Ratchet::Three)
            } else if input == 2 {
                (Statepoint::Nonterminal(2), Ratchet::Two)
            } else {
                (Statepoint::Nonterminal(1), Ratchet::One)
            },
            Ratchet::Two => if input == 3 {
                (Statepoint::Nonterminal(3), Ratchet::Three)
            } else {
                (Statepoint::Nonterminal(2), Ratchet::Two)
            },
            Ratchet::Three => (Statepoint::Terminal(()), Ratchet::Three),
        }
    }

    fn step(self, input: &i64) -> (r: (Statepoint<i64, ()>, Self)) {
        match self {
            Ratchet::Zero => if *input == 3 {
                (Statepoint::Nonterminal(3), Ratchet::Three)
            } else if *input == 2 {
                (Statepoint::Nonterminal(2), Ratchet::Two)
            } else if *input == 1 {
                (Statepoint::Nonterminal(1), Ratchet::One)
            } else {
                (Statepoint::Nonterminal(0), Ratchet::Zero)
            },
            Ratchet::One => if *input == 3 {
                (Statepoint::Nonterminal(3), Ratchet::Three)
            } else if *input == 2 {
                (Statepoint::Nonterminal(2), Ratchet::Two)
            } else {
                (Statepoint::Nonterminal(1), Ratchet::One)
            },
            Ratchet::Two => if *input == 3 {
                (Statepoint::Nonterminal(3), Ratchet::Three)
            } else {
                (Statepoint::Nonterminal(2), Ratchet::Two)
            },
            Ratchet::Three => (Statepoint::Terminal(()), Ratchet::Three),
        }
    }
}

/// The machine-wrapped ratchet node the sample controllers manage.
pub type RatchetNode = MachineWrapper<RefStateMachine<Ratchet>, i64, ()>;

/// A freshly started ratchet node.
pub open spec fn fresh_ratchet_spec() -> RatchetNode {
    MachineWrapper {
        machine: RefStateMachine { current_state: Some(Ratchet::Zero) },
        statepoint: core::marker::PhantomData,
    }
}

/// Build a freshly started ratchet node.
pub fn fresh_ratchet() -> (r: RatchetNode)
    ensures
        r == fresh_ratchet_spec(),
        r.inv(),
{
    MachineWrapper::new(RefStateMachine::new(Ratchet::Zero))
}

/// A step controller for the ratchet node: minus one pauses, minus two
/// resets to a fresh ratchet, seven resets and immediately steps, and
/// anything else steps as normal.
#[derive(Clone, Copy)]
pub struct RatchetControl;

impl StepControl for RatchetControl {
    type Node = RatchetNode;

    open spec fn control_spec(self, input: i64) -> StepDecision<RatchetNode> {
        if input == -1 {
            StepDecision::Pause
        } else if input == -2 {
            StepDecision::Reset(fresh_ratchet_spec())
        } else if input == 7 {
            StepDecision::ResetPlay(fresh_ratchet_spec())
        } else {
            StepDecision::Play
        }
    }

    fn controlled_step(&self, input: &i64) -> (d: StepDecision<RatchetNode>) {
        if *input == -1 {
            StepDecision::Pause
        } else if *input == -2 {
            StepDecision::Reset(fresh_ratchet())
        } else if *input == 7 {
            StepDecision::ResetPlay(fresh_ratchet())
        } else {
            StepDecision::Play
        }
    }
}

/// A post-run reset controller for the ratchet node: an input of five or
/// minus five installs a fresh ratchet after the tick, whatever
/// statepoint was reached.
#[derive(Clone, Copy)]
pub struct RatchetReset;

impl PostResetControl for RatchetReset {
    type Node = RatchetNode;

    open spec fn after_nonterminal_spec(self, input: i64, nonterm: i64) -> Option<RatchetNode> {
        if input == -5 || input == 5 {
            Some(fresh_ratchet_spec())
        } else {
            None
        }
    }

    open spec fn after_terminal_spec(self, input: i64, term: ()) -> Option<RatchetNode> {
        if input == -5 || input == 5 {
            Some(fresh_ratchet_spec())
        } else {
            None
        }
    }

    fn after_nonterminal(&self, input: &i64, nonterm: &i64) -> (d: Option<RatchetNode>) {
        if *input == -5 || *input == 5 {
            Some(fresh_ratchet())
        } else {
            None
        }
    }

    fn after_terminal(&self, input: &i64, term: &()) -> (d: Option<RatchetNode>) {
        if *input == -5 || *input == 5 {
            Some(fresh_ratchet())
        } else {
            None
        }
    }
}

/// A guard that holds while the input is greater than five, whatever the
/// nonterminal state.
#[derive(Clone, Copy)]
pub struct GreaterThanFive;

impl NodeGuard for GreaterThanFive {
    type Input = i64;
    type Nonterm = i64;

    open spec fn test_spec(self, input: i64, nonterm: i64) -> bool {
        input > 5
    }

    fn test(&self, input: &i64, nonterm: &i64) -> (r: bool) {
        *input > 5
    }
}

impl InputNodeMap for Negator {
    type In = i64;
    type Out = i64;

    open spec fn map_spec(self, input: i64) -> i64 {
        (0i64).wrapping_sub(input)
    }

    fn input_transform(&self, input: &i64) -> (out: i64) {
        (0i64).wrapping_sub(*input)
    }
}

impl InputNodeMap for Incrementer {
    type In = i64;
    type Out = i64;

    open spec fn map_spec(self, input: i64) -> i64 {
        input.wrapping_add(1)
    }

    fn input_transform(&self, input: &i64) -> (out: i64) {
        input.wrapping_add(1)
    }
}

/// A statepoint mapper that adds one to nonterminals and subtracts one
/// from terminals, wrapping on overflow.
#[derive(Clone, Copy)]
pub struct ShiftMap;

impl OutputNodeMap for ShiftMap {
    type NontermIn = i64;
    type NontermOut = i64;
    type TermIn = i64;
    type TermOut = i64;

    open spec fn nonterm_map_spec(self, value: i64) -> i64 {
        value.wrapping_add(1)
    }

    open spec fn term_map_spec(self, value: i64) -> i64 {
        value.wrapping_sub(1)
    }

    fn nonterminal_transform(&self, value: i64) -> (out: i64) {
        value.wrapping_add(1)
    }

    fn terminal_transform(&self, value: i64) -> (out: i64) {
        value.wrapping_sub(1)
    }
}

/// A transition for a machine-wrapped node that plays its state back as a
/// nonterminal while the input is positive and terminates with the state
/// otherwise.
#[derive(Clone, Copy)]
pub struct StatepointPlayback;

impl InternalTransition for StatepointPlayback {
    type Input = i64;
    type Internal = i64;
    type Action = Statepoint<i64, i64>;

    open spec fn step_spec(self, input: i64, state: i64) -> (Statepoint<i64, i64>, i64) {
        if input > 0 {
            (Statepoint::Nonterminal(state), state)
        } else {
            (Statepoint::Terminal(state), state)
        }
    }

    fn step(&self, input: &i64, state: &mut i64) -> (action: Statepoint<i64, i64>) {
        if *input > 0 {
            Statepoint::Nonterminal(*state)
        } else {
            Statepoint::Terminal(*state)
        }
    }
}

/// The machine-wrapped playback node the lazy sample constructor builds.
pub type PlaybackNode = MachineWrapper<InternalStateMachine<StatepointPlayback>, i64, i64>;

/// A lazy node constructor that seeds a playback node with the first
/// input.
#[derive(Clone, Copy)]
pub struct LazyPlaybackNode;

impl LazyConstructor for LazyPlaybackNode {
    type Creates = PlaybackNode;

    open spec fn create_spec(self, input: i64) -> PlaybackNode {
        MachineWrapper {
            machine: InternalStateMachine { stepper: StatepointPlayback, internal: input },
            statepoint: core::marker::PhantomData,
        }
    }

    fn create(&self, input: &i64) -> (node: PlaybackNode) {
        MachineWrapper::new(InternalStateMachine::new(StatepointPlayback, *input))
    }
}

/// An eager node constructor that builds a unit predicate wait ending on
/// zero inputs; the sample node runner restarts with it.
#[derive(Clone, Copy)]
pub struct ZeroEndsConstructor;

impl CustomConstructor for ZeroEndsConstructor {
    type Creates = PredicateWait<ZeroEnds>;

    open spec fn create_spec(self) -> PredicateWait<ZeroEnds> {
        PredicateWait { condition: ZeroEnds }
    }

    fn create(&self) -> (node: PredicateWait<ZeroEnds>) {
        PredicateWait::new(ZeroEnds)
    }
}

} // verus!
