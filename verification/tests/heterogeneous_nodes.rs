use stackbt::behavior_tree::base_nodes::PredicateWait;
use stackbt::behavior_tree::behavior_tree_node::{BehaviorTreeNode, NodeResult};
use stackbt::behavior_tree::heterogeneous_parallel_node::{
    HeterogeneousParallelNode, NontermReturn as ParallelReturn,
};
use stackbt::behavior_tree::heterogeneous_serial_node::{
    HeterogeneousSerialNode, NontermReturn as SerialReturn,
};
use stackbt::samples::compositions::{PositiveRepeater, RefillBoth, SwitchToOther};

type SerialPair = HeterogeneousSerialNode<
    i64,
    PredicateWait<PositiveRepeater>,
    PredicateWait<stackbt::samples::compositions::NegativeRepeater>,
    i64,
    SwitchToOther,
>;

#[test]
fn heterogeneous_serial_switch_test() {
    // The first kind repeats until it terminates, a fresh second kind
    // takes over, and its terminal value exits the supernode.
    let node = SerialPair::new_a(PredicateWait::new(PositiveRepeater));
    let node_1 = match node.step(&5) {
        NodeResult::Nonterminal(SerialReturn::NontermA(v), n) => {
            assert_eq!(v, 5);
            n
        },
        _ => unreachable!("Expected nonterminal of the first kind"),
    };
    let node_2 = match node_1.step(&-5) {
        NodeResult::Nonterminal(SerialReturn::TermA(v), n) => {
            assert_eq!(v, -5);
            n
        },
        _ => unreachable!("Expected terminal of the first kind"),
    };
    let node_3 = match node_2.step(&5) {
        NodeResult::Nonterminal(SerialReturn::NontermB(v), n) => {
            assert_eq!(v, -5);
            n
        },
        _ => unreachable!("Expected nonterminal of the second kind"),
    };
    match node_3.step(&-5) {
        NodeResult::Terminal(x) => assert_eq!(x, 5),
        _ => unreachable!("Expected terminal transition"),
    };
}

type ParallelPair = HeterogeneousParallelNode<
    PredicateWait<PositiveRepeater>,
    PredicateWait<stackbt::samples::compositions::NegativeRepeater>,
    (i64, i64),
    RefillBoth,
>;

#[test]
fn heterogeneous_parallel_refill_test() {
    // Each tick both children are stepped with their own input halves; a
    // lone terminal refills that slot, a double terminal exits with the
    // pair of terminal values.
    let node = ParallelPair::new(
        PredicateWait::new(PositiveRepeater),
        PredicateWait::new(stackbt::samples::compositions::NegativeRepeater),
    );
    let node_1 = match node.step(&(5, 3)) {
        NodeResult::Nonterminal(ParallelReturn::NontermBoth(a, b), n) => {
            assert_eq!(a, 5);
            assert_eq!(b, -3);
            n
        },
        _ => unreachable!("Expected both nonterminal"),
    };
    let node_2 = match node_1.step(&(-1, 4)) {
        NodeResult::Nonterminal(ParallelReturn::TermANotB(a, b), n) => {
            assert_eq!(a, -1);
            assert_eq!(b, -4);
            n
        },
        _ => unreachable!("Expected first-kind terminal"),
    };
    let node_3 = match node_2.step(&(2, -2)) {
        NodeResult::Nonterminal(ParallelReturn::TermBNotA(a, b), n) => {
            assert_eq!(a, 2);
            assert_eq!(b, 2);
            n
        },
        _ => unreachable!("Expected second-kind terminal"),
    };
    match node_3.step(&(-3, -4)) {
        NodeResult::Terminal((a, b)) => {
            assert_eq!(a, -3);
            assert_eq!(b, 4);
        },
        _ => unreachable!("Expected terminal transition"),
    };
}
