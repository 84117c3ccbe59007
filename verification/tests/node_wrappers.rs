use stackbt::behavior_tree::behavior_tree_node::{BehaviorTreeNode, NodeResult};
use stackbt::behavior_tree::node_wrappers::{CustomConstructedNode, CustomConstructor};
use stackbt::samples::compositions::ResetCounterConstructor;

#[test]
fn custom_constructed_node_test() {
    // The wrapper does not change the stepping behavior of the node it
    // encloses.
    let node: CustomConstructedNode<_, ResetCounterConstructor> =
        CustomConstructedNode::new(ResetCounterConstructor.create());
    let node_1 = match node.step(&3) {
        NodeResult::Nonterminal(v, n) => {
            assert_eq!(v, 1);
            n
        },
        _ => unreachable!("Expected nonterminal transition"),
    };
    let node_2 = match node_1.step(&3) {
        NodeResult::Nonterminal(v, n) => {
            assert_eq!(v, 2);
            n
        },
        _ => unreachable!("Expected nonterminal transition"),
    };
    match node_2.step(&-1) {
        NodeResult::Terminal(t) => assert_eq!(t, 0),
        _ => unreachable!("Expected terminal transition"),
    };
}
