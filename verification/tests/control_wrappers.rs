use stackbt::behavior_tree::base_nodes::PredicateWait;
use stackbt::behavior_tree::behavior_tree_node::{BehaviorTreeNode, NodeResult};
use stackbt::behavior_tree::control_wrappers::{
    GuardFailure, GuardedNode, PostResetNode, PostResetNonterm, StepControlledNode,
    StepCtrlNonterm,
};
use stackbt::samples::nodes::{
    fresh_ratchet, GreaterThanFive, PositiveWait, RatchetControl, RatchetReset,
};

#[test]
fn guarded_node_test() {
    let base_node = PredicateWait::new(PositiveWait);
    let wrapped_node = GuardedNode::new(GreaterThanFive, base_node);
    let wrapped_node_1 = match wrapped_node.step(&7) {
        NodeResult::Nonterminal(v, m) => {
            assert_eq!(v, 7);
            m
        },
        NodeResult::Terminal(_) => unreachable!("Expected nonterminal state"),
    };
    match wrapped_node_1.step(&4) {
        NodeResult::Nonterminal(_, _) => unreachable!("Expected terminal state"),
        NodeResult::Terminal(x) => match x {
            Err(GuardFailure(x)) => assert_eq!(x, 4),
            Ok(_) => unreachable!("Expected guard failure"),
        },
    };
}

#[test]
fn guarded_node_normal_termination_test() {
    // A terminal of the child passes through as a success, whatever the
    // guard would have said of the input.
    let wrapped_node = GuardedNode::new(GreaterThanFive, PredicateWait::new(PositiveWait));
    match wrapped_node.step(&0) {
        NodeResult::Terminal(Ok(t)) => assert_eq!(t, 0),
        _ => unreachable!("Expected normal termination"),
    };
}

#[test]
fn step_control_test() {
    let wrapped_node = StepControlledNode::new(RatchetControl, fresh_ratchet());
    let wrapped_node_1 = match wrapped_node.step(&-1) {
        NodeResult::Nonterminal(v, m) => {
            match v {
                StepCtrlNonterm::Paused => (),
                _ => unreachable!("Node was paused"),
            };
            m
        },
        _ => unreachable!("Expected nonterminal transition"),
    };
    let wrapped_node_2 = match wrapped_node_1.step(&2) {
        NodeResult::Terminal(_) => unreachable!("Expected nonterminal transition"),
        NodeResult::Nonterminal(v, m) => {
            match v {
                StepCtrlNonterm::Stepped(x) => assert_eq!(x, 2),
                _ => unreachable!("Node was played"),
            };
            m
        },
    };
    let wrapped_node_3 = match wrapped_node_2.step(&-2) {
        NodeResult::Nonterminal(v, m) => {
            match v {
                StepCtrlNonterm::Paused => (),
                _ => unreachable!("Node was reset"),
            };
            m
        },
        _ => unreachable!("Expected nonterminal transition"),
    };
    let wrapped_node_4 = match wrapped_node_3.step(&2) {
        NodeResult::Nonterminal(v, m) => {
            match v {
                StepCtrlNonterm::Paused => unreachable!("Node was played"),
                StepCtrlNonterm::Stepped(x) => assert_eq!(x, 2),
            };
            m
        },
        _ => unreachable!("Expected nonterminal transition"),
    };
    match wrapped_node_4.step(&7) {
        NodeResult::Nonterminal(v, _) => {
            match v {
                StepCtrlNonterm::Paused => unreachable!("Node was played"),
                StepCtrlNonterm::Stepped(x) => assert_eq!(x, 0),
            };
        },
        _ => unreachable!("Expected nonterminal transition"),
    };
}

#[test]
fn post_reset_test() {
    let wrapped_node = PostResetNode::new(RatchetReset, fresh_ratchet());
    let wrapped_node_1 = match wrapped_node.step(&1) {
        NodeResult::Nonterminal(v, n) => {
            match v {
                PostResetNonterm::NoReset(val) => assert_eq!(val, 1),
                _ => unreachable!("Node was not reset"),
            };
            n
        },
        _ => unreachable!("Expected nonterminal transition"),
    };
    let wrapped_node_2 = match wrapped_node_1.step(&5) {
        NodeResult::Nonterminal(v, n) => {
            match v {
                PostResetNonterm::ManualReset(val) => assert_eq!(val, 1),
                _ => unreachable!("Node was not reset"),
            };
            n
        },
        _ => unreachable!("Expected nonterminal transition"),
    };
    let wrapped_node_3 = match wrapped_node_2.step(&0) {
        NodeResult::Nonterminal(v, n) => {
            match v {
                PostResetNonterm::NoReset(val) => assert_eq!(val, 0),
                _ => unreachable!("Node was manually reset"),
            };
            n
        },
        _ => unreachable!("Expected nonterminal transition"),
    };
    let wrapped_node_4 = match wrapped_node_3.step(&3) {
        NodeResult::Nonterminal(v, n) => {
            match v {
                PostResetNonterm::NoReset(val) => assert_eq!(val, 3),
                _ => unreachable!("Node was end reset"),
            };
            n
        },
        _ => unreachable!("Expected nonterminal transition"),
    };
    let wrapped_node_5 = match wrapped_node_4.step(&5) {
        NodeResult::Nonterminal(v, n) => {
            match v {
                PostResetNonterm::EndReset(val) => assert_eq!(val, ()),
                _ => unreachable!("Node was end reset"),
            };
            n
        },
        _ => unreachable!("Expected nonterminal transition"),
    };
    let wrapped_node_6 = match wrapped_node_5.step(&3) {
        NodeResult::Nonterminal(v, n) => {
            match v {
                PostResetNonterm::NoReset(val) => assert_eq!(val, 3),
                _ => unreachable!("Node was end reset"),
            };
            n
        },
        _ => unreachable!("Expected nonterminal transition"),
    };
    match wrapped_node_6.step(&3) {
        NodeResult::Terminal(()) => (),
        _ => unreachable!("Expected terminal transition"),
    };
}
