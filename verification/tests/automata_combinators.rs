use stackbt::automata_impl::automata_combinators::MachineTee;
use stackbt::automata_impl::automata_combinators::ParallelMachines;
use stackbt::automata_impl::automata_combinators::{LazyConstructedMachine, MachineSeries};
use stackbt::automata_impl::automaton::Automaton;
use stackbt::automata_impl::internal_state_machine::InternalStateMachine;
use stackbt::automata_impl::stateless_mapper::StatelessMapper;
use stackbt::samples::machines::Accumulator;
use stackbt::samples::machines::{Echoer, Incrementer, LazyPlayback, Negator};

#[test]
fn automata_combinators_input_map_test() {
    let base_node = InternalStateMachine::new(Echoer, ());
    let mut wrapped_machine = MachineSeries::new(StatelessMapper::new(Negator), base_node);
    assert_eq!(wrapped_machine.transition(&-5), 5);
    assert_eq!(wrapped_machine.transition(&4), -4);
    assert_eq!(wrapped_machine.transition(&-7), 7);
    assert_eq!(wrapped_machine.transition(&12), -12);
}

#[test]
fn automata_combinators_output_map_test() {
    let base_node = InternalStateMachine::new(Echoer, ());
    let mut wrapped_machine = MachineSeries::new(base_node, StatelessMapper::new(Incrementer));
    assert_eq!(wrapped_machine.transition(&-5), -4);
    assert_eq!(wrapped_machine.transition(&4), 5);
    assert_eq!(wrapped_machine.transition(&-7), -6);
    assert_eq!(wrapped_machine.transition(&12), 13);
}

#[test]
fn automata_combinators_lazy_constructor_test() {
    let mut new_machine = LazyConstructedMachine::new(LazyPlayback);
    assert_eq!(new_machine.transition(&2), 2);
    assert_eq!(new_machine.transition(&5), 2);
    assert_eq!(new_machine.transition(&-3), 2);
    assert_eq!(new_machine.transition(&2), 2);
    assert_eq!(new_machine.transition(&4), 2);

    let mut new_machine_1 = LazyConstructedMachine::new(LazyPlayback);
    assert_eq!(new_machine_1.transition(&5), 5);
    assert_eq!(new_machine_1.transition(&5), 5);
    assert_eq!(new_machine_1.transition(&-3), 5);
    assert_eq!(new_machine_1.transition(&-4), 5);
    assert_eq!(new_machine_1.transition(&-5), 5);
}

#[test]
fn series_identity_test() {
    // Stepping the series equals feeding the first machine's action to the
    // second, tick for tick, with both component states evolving as they
    // would on their own.
    let mut series = MachineSeries::new(
        InternalStateMachine::new(Accumulator, 0),
        InternalStateMachine::new(Accumulator, 100),
    );
    let mut before = InternalStateMachine::new(Accumulator, 0);
    let mut after = InternalStateMachine::new(Accumulator, 100);
    for input in [3, 5, -2, 7, 0, 11] {
        let mid = before.transition(&input);
        assert_eq!(series.transition(&input), after.transition(&mid));
    }
}

#[test]
fn tee_decomposition_test() {
    // The tee returns the intermediate action paired with the second
    // machine's reaction to it.
    let mut tee = MachineTee::new(
        InternalStateMachine::new(Accumulator, 0),
        InternalStateMachine::new(Accumulator, 100),
    );
    assert_eq!(tee.transition(&3), (0, 100));
    assert_eq!(tee.transition(&5), (3, 100));
    assert_eq!(tee.transition(&-2), (8, 103));
}

#[test]
fn parallel_independence_test() {
    // Stepping the pair N times equals stepping both machines
    // independently N times with the same inputs.
    let mut pair = ParallelMachines::new(
        InternalStateMachine::new(Accumulator, 0),
        InternalStateMachine::new(Accumulator, 100),
    );
    let mut first = InternalStateMachine::new(Accumulator, 0);
    let mut second = InternalStateMachine::new(Accumulator, 100);
    for input in [3, 5, -2, 7, 0, 11] {
        assert_eq!(pair.transition(&input), (first.transition(&input), second.transition(&input)));
    }
}
