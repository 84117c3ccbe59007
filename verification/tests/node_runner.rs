use stackbt::automata_impl::automaton::Automaton;
use stackbt::behavior_tree::behavior_tree_node::Statepoint;
use stackbt::behavior_tree::behavior_tree_node::{BehaviorTreeNode, NodeResult};
use stackbt::behavior_tree::node_runner::NodeRunner;
use stackbt::behavior_tree::parallel_node::ParallelBranchNode;
use stackbt::samples::compositions::ThreeTickConstructor;
use stackbt::samples::compositions::{MagicNumDecider, RunnerPair};
use stackbt::samples::nodes::ZeroEndsConstructor;

#[test]
fn runner_test() {
    let mut machine = NodeRunner::new(ZeroEndsConstructor);
    match machine.transition(&1) {
        Statepoint::Nonterminal(_) => (),
        _ => unreachable!("Expected nonterminal state"),
    };
    match machine.transition(&0) {
        Statepoint::Terminal(_) => (),
        _ => unreachable!("Expected terminal state"),
    };
    match machine.transition(&1) {
        Statepoint::Nonterminal(_) => (),
        _ => unreachable!("Expected nonterminal state"),
    };
}

#[test]
fn runner_auto_restart_test() {
    // Wrapping a node that terminates on every third tick: the runner
    // reports a terminal statepoint exactly on ticks 3, 6, 9, ... and a
    // nonterminal on all others, indefinitely, without ever needing
    // external reconstruction.
    let mut machine = NodeRunner::new(ThreeTickConstructor);
    for tick in 1..=12 {
        let report = machine.transition(&());
        if tick % 3 == 0 {
            assert!(matches!(report, Statepoint::Terminal(())), "tick {} must end a run", tick);
        } else {
            assert!(
                matches!(report, Statepoint::Nonterminal(())),
                "tick {} must keep running",
                tick
            );
        }
    }
}

#[test]
fn parallel_node_test() {
    let par_node = ParallelBranchNode::<RunnerPair, MagicNumDecider>::new(
        MagicNumDecider,
        RunnerPair::new(),
    );
    let par_node_1 = match par_node.step(&4) {
        NodeResult::Nonterminal(v, n) => {
            match v[0] {
                Statepoint::Nonterminal(i) => assert_eq!(i, 1),
                _ => unreachable!("Expected subordinate nonterminal transition"),
            };
            match v[1] {
                Statepoint::Terminal(i) => assert_eq!(i, 0),
                _ => unreachable!("Expected subordinate terminal transition"),
            };
            n
        },
        NodeResult::Terminal(_) => unreachable!("Expected nonterminal transition"),
    };
    let par_node_2 = match par_node_1.step(&3) {
        NodeResult::Nonterminal(v, n) => {
            match v[0] {
                Statepoint::Nonterminal(i) => assert_eq!(i, 2),
                Statepoint::Terminal(_) => {
                    unreachable!("Expected subordinate nonterminal transition")
                },
            };
            match v[1] {
                Statepoint::Nonterminal(_) => {
                    unreachable!("Expected subordinate terminal transition")
                },
                Statepoint::Terminal(i) => assert_eq!(i, 0),
            };
            n
        },
        NodeResult::Terminal(_) => unreachable!("Expected nonterminal transition"),
    };
    let par_node_3 = match par_node_2.step(&-3) {
        NodeResult::Nonterminal(v, n) => {
            match v[0] {
                Statepoint::Nonterminal(_) => {
                    unreachable!("Expected subordinate terminal transition")
                },
                Statepoint::Terminal(i) => assert_eq!(i, 0),
            };
            match v[1] {
                Statepoint::Nonterminal(i) => assert_eq!(i, 1),
                Statepoint::Terminal(_) => {
                    unreachable!("Expected subordinate nonterminal transition")
                },
            };
            n
        },
        NodeResult::Terminal(_) => unreachable!("Expected nonterminal transition"),
    };
    match par_node_3.step(&-3) {
        NodeResult::Nonterminal(v, _) => {
            match v[0] {
                Statepoint::Nonterminal(_) => {
                    unreachable!("Expected subordinate terminal transition")
                },
                Statepoint::Terminal(i) => assert_eq!(i, 0),
            };
            match v[1] {
                Statepoint::Nonterminal(i) => assert_eq!(i, 2),
                Statepoint::Terminal(_) => {
                    unreachable!("Expected subordinate nonterminal transition")
                },
            };
        },
        NodeResult::Terminal(_) => unreachable!("Expected nonterminal transition"),
    };
}
