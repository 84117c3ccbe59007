use vstd::prelude::*;
use crate::automata_impl::automaton::{Automaton, FiniteStateAutomaton};
use crate::automata_impl::internal_state_machine::{InternalStateMachine, InternalTransition};
use crate::automata_impl::map_wrappers::{
    CustomConstructor, InputMachineMap, LazyConstructor, OutputMachineMap,
};
use crate::automata_impl::pushdown_automaton::{PushdownTransition, TerminalTransition};
use crate::automata_impl::dual_state_machine::DualTransition;
use crate::automata_impl::ref_state_machine::ReferenceTransition;

verus! {

/// A stateless transition that returns its input unchanged.
#[derive(Clone, Copy)]
pub struct Echoer;

impl InternalTransition for Echoer {
    type Input = i64;
    type Internal = ();
    type Action = i64;

    open spec fn step_spec(self, input: i64, state: ()) -> (i64, ()) {
        (input, state)
    }

    fn step(&self, input: &i64, state: &mut ()) -> (action: i64) {
        *input
    }
}

/// A pure mapping that negates its input, wrapping on overflow.
#[derive(Clone, Copy)]
pub struct Negator;

impl InputMachineMap for Negator {
    type In = i64;
    type Out = i64;

    open spec fn map_spec(self, input: i64) -> i64 {
        (0i64).wrapping_sub(input)
    }

    fn input_transform(&self, input: &i64) -> (out: i64) {
        (0i64).wrapping_sub(*input)
    }
}

/// A pure mapping that adds one to its input, wrapping on overflow.
#[derive(Clone, Copy)]
pub struct Incrementer;

impl InputMachineMap for Incrementer {
    type In = i64;
    type Out = i64;

    open spec fn map_spec(self, input: i64) -> i64 {
        input.wrapping_add(1)
    }

    fn input_transform(&self, input: &i64) -> (out: i64) {
        input.wrapping_add(1)
    }
}

impl OutputMachineMap for Incrementer {
    type In = i64;
    type Out = i64;

    open spec fn map_spec(self, action: i64) -> i64 {
        action.wrapping_add(1)
    }

    fn output_transform(&self, action: i64) -> (out: i64) {
        action.wrapping_add(1)
    }
}

/// A transition that returns the running total so far and then adds its
/// input to it, wrapping on overflow.
#[derive(Clone, Copy)]
pub struct Accumulator;

impl InternalTransition for Accumulator {
    type Input = i64;
    type Internal = i64;
    type Action = i64;

    open spec fn step_spec(self, input: i64, state: i64) -> (i64, i64) {
        (state, state.wrapping_add(input))
    }

    fn step(&self, input: &i64, state: &mut i64) -> (action: i64) {
        let orig = *state;
        *state = state.wrapping_add(*input);
        orig
    }
}

/// A transition that returns its state unchanged on every tick, ignoring
/// the input.
#[derive(Clone, Copy)]
pub struct IndefinitePlayback;

impl InternalTransition for IndefinitePlayback {
    type Input = i64;
    type Internal = i64;
    type Action = i64;

    open spec fn step_spec(self, input: i64, state: i64) -> (i64, i64) {
        (state, state)
    }

    fn step(&self, input: &i64, state: &mut i64) -> (action: i64) {
        *state
    }
}

/// A lazy constructor that plays the first input back indefinitely: the
/// machine it builds is an `IndefinitePlayback` seeded with that input.
#[derive(Clone, Copy)]
pub struct LazyPlayback;

impl LazyConstructor for LazyPlayback {
    type Creates = InternalStateMachine<IndefinitePlayback>;

    open spec fn create_spec(self, input: i64) -> InternalStateMachine<IndefinitePlayback> {
        InternalStateMachine { stepper: IndefinitePlayback, internal: input }
    }

    fn create(&self, input: &i64) -> (machine: InternalStateMachine<IndefinitePlayback>) {
        InternalStateMachine::new(IndefinitePlayback, *input)
    }
}

/// An eager constructor that builds an `IndefinitePlayback` seeded with
/// the fixed value twelve.
#[derive(Clone, Copy)]
pub struct FixedPlayback;

impl CustomConstructor for FixedPlayback {
    type Creates = InternalStateMachine<IndefinitePlayback>;

    open spec fn create_spec(self) -> InternalStateMachine<IndefinitePlayback> {
        InternalStateMachine { stepper: IndefinitePlayback, internal: 12 }
    }

    fn create(&self) -> (machine: InternalStateMachine<IndefinitePlayback>) {
        InternalStateMachine::new(IndefinitePlayback, 12)
    }
}

/// A two-state self-consuming machine: the action reports which state it
/// was in, and a true input swaps the state.
#[derive(Clone, Copy)]
pub enum XorSwap {
    /// The low state, reporting false.
    Zero,
    /// The high state, reporting true.
    One,
}

impl ReferenceTransition for XorSwap {
    type Input = bool;
    type Action = bool;

    open spec fn step_spec(self, input: bool) -> (bool, Self) {
        match self {
            XorSwap::Zero => if input {
                (false, XorSwap::One)
            } else {
                (false, XorSwap::Zero)
            },
            XorSwap::One => if input {
                (true, XorSwap::Zero)
            } else {
                (true, XorSwap::One)
            },
        }
    }

    fn step(self, input: &bool) -> (r: (bool, Self)) {
        match self {
            XorSwap::Zero => if *input {
                (false, XorSwap::One)
            } else {
                (false, XorSwap::Zero)
            },
            XorSwap::One => if *input {
                (true, XorSwap::Zero)
            } else {
                (true, XorSwap::One)
            },
        }
    }
}

impl crate::automata_impl::own_state_machine::OwnTransition for XorSwap {
    type Input = bool;
    type Action = bool;

    open spec fn step_spec(self, input: bool) -> (bool, Self) {
        match self {
            XorSwap::Zero => if input {
                (false, XorSwap::One)
            } else {
                (false, XorSwap::Zero)
            },
            XorSwap::One => if input {
                (true, XorSwap::Zero)
            } else {
                (true, XorSwap::One)
            },
        }
    }

    fn step(self, input: &bool) -> (r: (bool, Box<Self>)) {
        match self {
            XorSwap::Zero => if *input {
                (false, Box::new(XorSwap::One))
            } else {
                (false, Box::new(XorSwap::Zero))
            },
            XorSwap::One => if *input {
                (true, Box::new(XorSwap::Zero))
            } else {
                (true, Box::new(XorSwap::One))
            },
        }
    }
}

/// A dual machine that adds its input to the running total while in the
/// adding phase and subtracts it in the subtracting phase, wrapping on
/// overflow; a zero input swaps the phase.
#[derive(Clone, Copy)]
pub enum AddSubtract {
    /// Inputs are added to the total.
    Add,
    /// Inputs are subtracted from the total.
    Subtract,
}

impl DualTransition for AddSubtract {
    type Input = i64;
    type Internal = i64;
    type Action = i64;

    open spec fn step_spec(self, input: i64, state: i64) -> (i64, Self, i64) {
        match self {
            AddSubtract::Add => if input == 0 {
                (state, AddSubtract::Subtract, state)
            } else {
                (state.wrapping_add(input), AddSubtract::Add, state.wrapping_add(input))
            },
            AddSubtract::Subtract => if input == 0 {
                (state, AddSubtract::Add, state)
            } else {
                (state.wrapping_sub(input), AddSubtract::Subtract, state.wrapping_sub(input))
            },
        }
    }

    fn step(self, input: &i64, state: &mut i64) -> (r: (i64, Self)) {
        match self {
            AddSubtract::Add => {
                if *input == 0 {
                    (*state, AddSubtract::Subtract)
                } else {
                    *state = state.wrapping_add(*input);
                    (*state, AddSubtract::Add)
                }
            },
            AddSubtract::Subtract => {
                if *input == 0 {
                    (*state, AddSubtract::Add)
                } else {
                    *state = state.wrapping_sub(*input);
                    (*state, AddSubtract::Subtract)
                }
            },
        }
    }
}

/// The bottom automaton of the sample pushdown: remembers the last
/// nonzero input, and on a zero input pushes a fresh frame while
/// reporting the remembered value.
#[derive(Clone, Copy)]
pub struct PushBottom {
    /// The last nonzero input seen, initially whatever it was seeded with.
    pub state: i64,
}

/// A frame automaton of the sample pushdown: remembers the last positive
/// input; a zero input pushes a fresh frame, a negative input pops this
/// one, either way reporting the remembered value.
#[derive(Clone, Copy)]
pub struct PushFrame {
    /// The last positive input seen, initially zero.
    pub state: i64,
}

/// What one step of a sample frame does.
pub open spec fn push_frame_step(frame: PushFrame, input: i64) -> (
    PushdownTransition<i64, PushFrame>,
    PushFrame,
) {
    if input == 0 {
        (PushdownTransition::Push(frame.state, PushFrame { state: 0 }), frame)
    } else if input < 0 {
        (PushdownTransition::Pop(frame.state), frame)
    } else {
        (PushdownTransition::Stay(frame.state), PushFrame { state: input })
    }
}

impl Automaton for PushFrame {
    type Input = i64;
    type Action = PushdownTransition<i64, PushFrame>;

    open spec fn inv(self) -> bool {
        true
    }

    open spec fn step_ok(
        self,
        input: i64,
        action: PushdownTransition<i64, PushFrame>,
        next: Self,
    ) -> bool {
        (action, next) == push_frame_step(self, input)
    }

    fn transition(&mut self, input: &i64) -> (action: PushdownTransition<i64, PushFrame>) {
        if *input == 0 {
            PushdownTransition::Push(self.state, PushFrame { state: 0 })
        } else if *input < 0 {
            PushdownTransition::Pop(self.state)
        } else {
            let orig = self.state;
            self.state = *input;
            PushdownTransition::Stay(orig)
        }
    }
}

impl FiniteStateAutomaton for PushFrame {

}

/// What one step of the sample bottom does.
pub open spec fn push_bottom_step(bottom: PushBottom, input: i64) -> (
    TerminalTransition<i64, PushFrame>,
    PushBottom,
) {
    if input == 0 {
        (TerminalTransition::Push(bottom.state, PushFrame { state: 0 }), bottom)
    } else {
        (TerminalTransition::Stay(bottom.state), PushBottom { state: input })
    }
}

impl Automaton for PushBottom {
    type Input = i64;
    type Action = TerminalTransition<i64, PushFrame>;

    open spec fn inv(self) -> bool {
        true
    }

    open spec fn step_ok(
        self,
        input: i64,
        action: TerminalTransition<i64, PushFrame>,
        next: Self,
    ) -> bool {
        (action, next) == push_bottom_step(self, input)
    }

    fn transition(&mut self, input: &i64) -> (action: TerminalTransition<i64, PushFrame>) {
        if *input == 0 {
            TerminalTransition::Push(self.state, PushFrame { state: 0 })
        } else {
            let orig = self.state;
            self.state = *input;
            TerminalTransition::Stay(orig)
        }
    }
}

impl FiniteStateAutomaton for PushBottom {

}

} // verus!
