use stackbt::behavior_tree::behavior_tree_node::{BehaviorTreeNode, NodeResult};
use stackbt::behavior_tree::serial_node::{NontermReturn, SerialBranchNode};
use stackbt::samples::compositions::{PosNegEnum, PosNegMachine, Switcharound};

#[test]
fn serial_switcharound_test() {
    let test_node =
        SerialBranchNode::<PosNegMachine, _>::new(Switcharound, PosNegEnum::Positive);
    let test_node_1 = match test_node.step(&5) {
        NodeResult::Nonterminal(r, n) => {
            match r {
                NontermReturn::Nonterminal(s, v) => {
                    let _: i64 = v;
                    match s {
                        PosNegEnum::Positive => (),
                        _ => unreachable!("Expected positive"),
                    }
                    assert_eq!(v, 5_i64);
                },
                _ => unreachable!("Expected subordinate nonterminal transition"),
            };
            n
        },
        _ => unreachable!("Expected nonterminal transition"),
    };
    let test_node_2 = match test_node_1.step(&-5) {
        NodeResult::Nonterminal(r, n) => {
            match r {
                NontermReturn::Terminal(s, v) => {
                    let _: i64 = v;
                    match s {
                        PosNegEnum::Positive => (),
                        _ => unreachable!("Expected positive"),
                    }
                    assert_eq!(v, -5)
                },
                _ => unreachable!("Expected subordinate nonterminal transition"),
            };
            n
        },
        NodeResult::Terminal(_) => unreachable!("Expected nonterminal transition"),
    };
    let test_node_3 = match test_node_2.step(&5) {
        NodeResult::Nonterminal(r, n) => {
            match r {
                NontermReturn::Nonterminal(s, v) => {
                    let _: i64 = v;
                    match s {
                        PosNegEnum::Negative => (),
                        _ => unreachable!("Expected negative"),
                    }
                    assert_eq!(v, -5)
                },
                _ => unreachable!("Expected subordinate nonterminal transition"),
            };
            n
        },
        _ => unreachable!("Expected nonterminal transition"),
    };
    let test_node_4 = match test_node_3.step(&-5) {
        NodeResult::Nonterminal(r, n) => {
            match r {
                NontermReturn::Terminal(s, v) => {
                    let _: i64 = v;
                    match s {
                        PosNegEnum::Negative => (),
                        _ => unreachable!("Expected negative"),
                    }
                    assert_eq!(v, 5)
                },
                _ => unreachable!("Expected subordinate nonterminal transition"),
            };
            n
        },
        _ => unreachable!("Expected nonterminal transition"),
    };
    match test_node_4.step(&5) {
        NodeResult::Nonterminal(r, n) => {
            match r {
                NontermReturn::Nonterminal(s, v) => {
                    let _: i64 = v;
                    match s {
                        PosNegEnum::Positive => (),
                        _ => unreachable!("Expected positive"),
                    }
                    assert_eq!(v, 5);
                },
                _ => unreachable!("Expected subordinate nonterminal transition"),
            };
            n
        },
        _ => unreachable!("Expected nonterminal transition"),
    };
}
