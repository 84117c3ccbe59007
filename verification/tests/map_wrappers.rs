use stackbt::automata_impl::automaton::Automaton;
use stackbt::automata_impl::internal_state_machine::InternalStateMachine;
use stackbt::automata_impl::map_wrappers::{
    CustomConstructedMachine, InputMappedMachine, LazyConstructedMachine, OutputMappedMachine,
};
use stackbt::samples::machines::{Echoer, FixedPlayback, Incrementer, LazyPlayback, Negator};

#[test]
fn map_wrappers_input_map_test() {
    let base_node = InternalStateMachine::new(Echoer, ());
    let mut wrapped_machine = InputMappedMachine::new(Negator, base_node);
    assert_eq!(wrapped_machine.transition(&-5), 5);
    assert_eq!(wrapped_machine.transition(&4), -4);
    assert_eq!(wrapped_machine.transition(&-7), 7);
    assert_eq!(wrapped_machine.transition(&12), -12);
}

#[test]
fn map_wrappers_output_map_test() {
    let base_node = InternalStateMachine::new(Echoer, ());
    let mut wrapped_machine = OutputMappedMachine::new(Incrementer, base_node);
    assert_eq!(wrapped_machine.transition(&-5), -4);
    assert_eq!(wrapped_machine.transition(&4), 5);
    assert_eq!(wrapped_machine.transition(&-7), -6);
    assert_eq!(wrapped_machine.transition(&12), 13);
}

#[test]
fn map_wrappers_lazy_constructor_test() {
    let mut new_machine = LazyConstructedMachine::new(LazyPlayback);
    assert_eq!(new_machine.transition(&2), 2);
    assert_eq!(new_machine.transition(&5), 2);
    assert_eq!(new_machine.transition(&-3), 2);
    assert_eq!(new_machine.transition(&2), 2);
    assert_eq!(new_machine.transition(&4), 2);

    let mut new_machine_1 = LazyConstructedMachine::new(LazyPlayback);
    assert_eq!(new_machine_1.transition(&5), 5);
    assert_eq!(new_machine_1.transition(&5), 5);
    assert_eq!(new_machine_1.transition(&-3), 5);
    assert_eq!(new_machine_1.transition(&-4), 5);
    assert_eq!(new_machine_1.transition(&-5), 5);
}

#[test]
fn custom_constructor_test() {
    let mut new_machine = CustomConstructedMachine::new(&FixedPlayback);
    assert_eq!(new_machine.transition(&4), 12);
    assert_eq!(new_machine.transition(&-5), 12);
    assert_eq!(new_machine.transition(&2), 12);
    assert_eq!(new_machine.transition(&-2), 12);
    assert_eq!(new_machine.transition(&4), 12);

    let mut new_machine_1 = CustomConstructedMachine::new(&FixedPlayback);
    assert_eq!(new_machine_1.transition(&-3), 12);
    assert_eq!(new_machine_1.transition(&-3), 12);
    assert_eq!(new_machine_1.transition(&6), 12);
    assert_eq!(new_machine_1.transition(&-8), 12);
    assert_eq!(new_machine_1.transition(&-1), 12);
}

#[test]
fn lazy_from_existing_skips_construction() {
    // A machine wrapped by `from_existing` keeps its seeded state; the
    // first input does not re-seed it.
    let existing = InternalStateMachine::new(stackbt::samples::machines::IndefinitePlayback, 9);
    let mut wrapped: LazyConstructedMachine<_, LazyPlayback> =
        LazyConstructedMachine::from_existing(existing);
    assert_eq!(wrapped.transition(&2), 9);
    assert_eq!(wrapped.transition(&5), 9);
}
