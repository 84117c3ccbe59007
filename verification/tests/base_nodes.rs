use stackbt::automata_impl::internal_state_machine::InternalStateMachine;
use stackbt::behavior_tree::base_nodes::{Evaluation, MachineWrapper, PredicateWait};
use stackbt::behavior_tree::behavior_tree_node::{BehaviorTreeNode, NodeResult, Statepoint};
use stackbt::samples::nodes::{EchoCall, ThingLeaf, ZeroEnds};

#[test]
fn pred_wait_test() {
    let thing = PredicateWait::new(ZeroEnds);
    let thing_1 = match thing.step(&4) {
        NodeResult::Nonterminal(_, x) => x,
        _ => unreachable!("Expected nonterminal state"),
    };
    match thing_1.step(&0) {
        NodeResult::Terminal(_) => (),
        _ => unreachable!("Expected terminal state"),
    }
}

#[test]
fn evaluation_test() {
    let thing = Evaluation::new(EchoCall);
    match thing.step(&5) {
        NodeResult::Terminal(t) => assert!(t == 5),
        _ => unreachable!("Expected terminal"),
    };
}

#[test]
fn leaf_test() {
    let machine = InternalStateMachine::new(ThingLeaf, 0);
    let thing = MachineWrapper::new(machine);
    let thing_1 = match thing.step(&4) {
        NodeResult::Nonterminal(a, b) => {
            assert_eq!(a, 0);
            b
        },
        _ => unreachable!("Expected nonterminal state"),
    };
    let thing_2 = match thing_1.step(&3) {
        NodeResult::Nonterminal(a, b) => {
            assert_eq!(a, 4);
            b
        },
        _ => unreachable!("Expected nonterminal state"),
    };
    match thing_2.step(&0) {
        NodeResult::Terminal(t) => assert_eq!(t, 7),
        _ => unreachable!("Expected terminal state"),
    };
}

#[test]
fn node_terminal_finality_test() {
    // A node fed an input of zero returns Terminal with its accumulated
    // value and hands back no continuation: the match below receives no
    // node value in the terminal arm, so no further step of this logical
    // node instance can even be written.
    let node = MachineWrapper::new(InternalStateMachine::new(ThingLeaf, 5));
    match node.step(&0) {
        NodeResult::Terminal(t) => assert_eq!(t, 5),
        NodeResult::Nonterminal(_, _) => unreachable!("Expected terminal state"),
    };
}

#[test]
fn statepoint_result_round_trip_test() {
    let nonterm: Statepoint<i64, i64> = Statepoint::from_ok(3);
    assert!(matches!(nonterm.into_result(), Ok(3)));
    let term: Statepoint<i64, i64> = Statepoint::from_error(7);
    assert!(matches!(term.into_result(), Err(7)));
}
