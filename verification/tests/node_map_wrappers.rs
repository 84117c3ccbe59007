use stackbt::behavior_tree::base_nodes::PredicateWait;
use stackbt::behavior_tree::behavior_tree_node::{BehaviorTreeNode, NodeResult};
use stackbt::behavior_tree::map_wrappers::{
    InputMappedNode, LazyConstructedNode, OutputMappedNode,
};
use stackbt::samples::machines::Negator;
use stackbt::samples::nodes::{LazyPlaybackNode, PositiveWait, ShiftMap};

#[test]
fn node_map_wrappers_input_map_test() {
    let base_node = PredicateWait::new(PositiveWait);
    let wrapped_node = InputMappedNode::new(Negator, base_node);
    let wrapped_node_1 = match wrapped_node.step(&-5) {
        NodeResult::Nonterminal(v, m) => {
            assert_eq!(v, 5);
            m
        },
        _ => unreachable!("Expected nonterminal state"),
    };
    match wrapped_node_1.step(&4) {
        NodeResult::Terminal(x) => assert_eq!(x, -4),
        _ => unreachable!("Expected terminal state"),
    };
}

#[test]
fn node_map_wrappers_output_map_test() {
    let base_node = PredicateWait::new(PositiveWait);
    let wrapped_node = OutputMappedNode::new(ShiftMap, base_node);
    let wrapped_node_1 = match wrapped_node.step(&5) {
        NodeResult::Nonterminal(v, m) => {
            assert_eq!(v, 6);
            m
        },
        _ => unreachable!("Expected nonterminal state"),
    };
    match wrapped_node_1.step(&-4) {
        NodeResult::Terminal(x) => assert_eq!(x, -5),
        _ => unreachable!("Expected terminal state"),
    };
}

#[test]
fn node_map_wrappers_lazy_constructor_test() {
    let new_node = LazyConstructedNode::new(LazyPlaybackNode);
    let new_node_1 = match new_node.step(&2) {
        NodeResult::Nonterminal(x, y) => {
            assert_eq!(x, 2);
            y
        },
        _ => unreachable!("Expected nonterminal state"),
    };
    match new_node_1.step(&4) {
        NodeResult::Nonterminal(x, _) => assert_eq!(x, 2),
        _ => unreachable!("Expected nonterminal state"),
    };
    let new_node_2 = LazyConstructedNode::new(LazyPlaybackNode);
    let new_node_3 = match new_node_2.step(&5) {
        NodeResult::Nonterminal(x, y) => {
            assert_eq!(x, 5);
            y
        },
        _ => unreachable!("Expected nonterminal state"),
    };
    match new_node_3.step(&10) {
        NodeResult::Nonterminal(x, _) => assert_eq!(x, 5),
        _ => unreachable!("Expected nonterminal state"),
    };
}
