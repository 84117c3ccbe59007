use stackbt::automata_impl::automaton::Automaton;
use stackbt::automata_impl::dual_state_machine::DualStateMachine;
use stackbt::automata_impl::internal_automaton::InternalAutomaton;
use stackbt::automata_impl::internal_state_machine::InternalStateMachine;
use stackbt::automata_impl::own_state_machine::OwnStateMachine;
use stackbt::automata_impl::ref_state_machine::RefStateMachine;
use stackbt::samples::machines::{Accumulator, AddSubtract, XorSwap};

#[test]
fn dual_state_machine_check_def() {
    let mut x = DualStateMachine::new(AddSubtract::Add, 0);
    assert_eq!(x.transition(&2), 2);
    assert_eq!(x.transition(&0), 2);
    assert_eq!(x.transition(&4), -2);
    assert_eq!(x.transition(&0), -2);
    assert_eq!(x.transition(&10), 8);
}

#[test]
fn internal_state_machine_check_def() {
    let mut x = InternalStateMachine::new(Accumulator, 0);
    assert_eq!(x.transition(&1), 0);
    assert_eq!(x.transition(&2), 1);
    assert_eq!(x.transition(&3), 3);
    assert_eq!(x.transition(&6), 6);
}

#[test]
fn ref_state_machine_check_def() {
    let mut x = RefStateMachine::new(XorSwap::Zero);
    assert!(!x.transition(&true));
    assert!(x.transition(&false));
    assert!(x.transition(&true));
    assert!(!x.transition(&false));
    assert!(!x.transition(&true));
}

#[test]
fn own_state_machine_runs_boxed_state() {
    // The boxed machine behaves exactly as the unboxed reference machine
    // would on the same inputs.
    let mut boxed = OwnStateMachine::new(Box::new(XorSwap::Zero));
    assert!(!boxed.transition(&true));
    assert!(boxed.transition(&false));
    assert!(boxed.transition(&true));
    assert!(!boxed.transition(&false));
}

#[test]
fn internal_automaton_shares_stepper() {
    // Two automata borrowing the same stepper evolve independently.
    let stepper = Accumulator;
    let mut first = InternalAutomaton::new(0, &stepper);
    let mut second = InternalAutomaton::new(10, &stepper);
    assert_eq!(first.transition(&1), 0);
    assert_eq!(first.transition(&2), 1);
    assert_eq!(second.transition(&5), 10);
    assert_eq!(second.transition(&0), 15);
}
