use stackbt::behavior_tree::behavior_tree_node::{BehaviorTreeNode, NodeResult, Statepoint};
use stackbt::behavior_tree::node_compositions::{
    EnumOrdinal, ParallelRacer, ParallelRunner, SerialRepeater, SerialRunner, SerialSelector,
};
use stackbt::behavior_tree::parallel_node::ParallelBranchNode;
use stackbt::behavior_tree::serial_node::{NontermReturn, SerialBranchNode};
use stackbt::samples::compositions::{
    CyclePair, IndexEnum, MultiMachine, RacingCyclePair, WrappedMachine,
};

#[test]
fn serial_runner_test() {
    let test_node =
        SerialBranchNode::<MultiMachine, _>::new(SerialRunner::new(), IndexEnum::First);
    let test_node_1 = match test_node.step(&3) {
        NodeResult::Nonterminal(ret, n) => {
            match ret {
                NontermReturn::Nonterminal(e, v) => {
                    let _: IndexEnum = e;
                    let _: i64 = v;
                    assert_eq!(e, IndexEnum::First);
                    assert_eq!(v, 1);
                },
                _ => unreachable!("Expected subordinate nonterminal transition"),
            };
            n
        },
        _ => unreachable!("Expected nonterminal transition"),
    };
    let test_node_2 = match test_node_1.step(&3) {
        NodeResult::Nonterminal(ret, n) => {
            match ret {
                NontermReturn::Nonterminal(e, v) => {
                    assert_eq!(e, IndexEnum::First);
                    assert_eq!(v, 2);
                },
                _ => unreachable!("Expected subordinate nonterminal transition"),
            };
            n
        },
        _ => unreachable!("Expected nonterminal transition"),
    };
    let test_node_3 = match test_node_2.step(&-1) {
        NodeResult::Nonterminal(ret, n) => {
            match ret {
                NontermReturn::Terminal(e, v) => {
                    assert_eq!(e, IndexEnum::First);
                    assert_eq!(v, 2);
                },
                _ => unreachable!("Expected subordinate nonterminal transition"),
            };
            n
        },
        _ => unreachable!("Expected nonterminal transition"),
    };
    let test_node_4 = match test_node_3.step(&3) {
        NodeResult::Nonterminal(ret, n) => {
            match ret {
                NontermReturn::Nonterminal(e, v) => {
                    assert_eq!(e, IndexEnum::Second);
                    assert_eq!(v, 1);
                },
                _ => unreachable!("Expected subordinate nonterminal transition"),
            };
            n
        },
        _ => unreachable!("Expected nonterminal transition"),
    };
    match test_node_4.step(&-3) {
        NodeResult::Terminal(_) => (),
        _ => unreachable!("Expected terminal transition"),
    };
}

#[test]
fn serial_selector_test() {
    let test_node =
        SerialBranchNode::<WrappedMachine, SerialSelector<IndexEnum, i64, i64, i64>>::new(
            SerialSelector::new(),
            IndexEnum::First,
        );
    let test_node_1 = match test_node.step(&3) {
        NodeResult::Nonterminal(ret, n) => {
            match ret {
                NontermReturn::Nonterminal(e, v) => {
                    assert_eq!(e, IndexEnum::First);
                    assert_eq!(v, 1);
                },
                _ => unreachable!("Expected subordinate nonterminal transition"),
            };
            n
        },
        _ => unreachable!("Expected nonterminal transition"),
    };
    let test_node_2 = match test_node_1.step(&-1) {
        NodeResult::Nonterminal(ret, n) => {
            match ret {
                NontermReturn::Terminal(e, v) => {
                    assert_eq!(e, IndexEnum::First);
                    match v {
                        None => (),
                        _ => unreachable!("Expected subordinate failure"),
                    }
                },
                _ => unreachable!("Expected subordinate nonterminal transition"),
            };
            n
        },
        _ => unreachable!("Expected nonterminal transition"),
    };
    let test_node_3 = match test_node_2.step(&3) {
        NodeResult::Nonterminal(ret, n) => {
            match ret {
                NontermReturn::Nonterminal(e, v) => {
                    assert_eq!(e, IndexEnum::Second);
                    assert_eq!(v, 1);
                },
                _ => unreachable!("Expected subordinate nonterminal transition"),
            };
            n
        },
        _ => unreachable!("Expected nonterminal transition"),
    };
    let test_node_4 = match test_node_3.step(&3) {
        NodeResult::Nonterminal(ret, n) => {
            match ret {
                NontermReturn::Nonterminal(e, v) => {
                    assert_eq!(e, IndexEnum::Second);
                    assert_eq!(v, 2);
                },
                _ => unreachable!("Expected subordinate nonterminal transition"),
            };
            n
        },
        _ => unreachable!("Expected nonterminal transition"),
    };
    let test_node_5 = match test_node_4.step(&3) {
        NodeResult::Nonterminal(ret, n) => {
            match ret {
                NontermReturn::Nonterminal(e, v) => {
                    assert_eq!(e, IndexEnum::Second);
                    assert_eq!(v, 3);
                },
                _ => unreachable!("Expected subordinate nonterminal transition"),
            };
            n
        },
        _ => unreachable!("Expected nonterminal transition"),
    };
    match test_node_5.step(&-3) {
        NodeResult::Terminal(t) => match t {
            Some(k) => assert_eq!(k, (IndexEnum::Second, 3)),
            _ => unreachable!("Expected return with success"),
        },
        _ => unreachable!("Expected terminal transition"),
    };
}

#[test]
fn serial_repeater_test() {
    let test_node = SerialBranchNode::<MultiMachine, SerialRepeater<IndexEnum, i64, i64, i64>>::new(
        SerialRepeater::new(),
        IndexEnum::First,
    );
    let test_node_1 = match test_node.step(&3) {
        NodeResult::Nonterminal(ret, n) => {
            match ret {
                NontermReturn::Nonterminal(e, v) => {
                    assert_eq!(e, IndexEnum::First);
                    assert_eq!(v, 1);
                },
                _ => unreachable!("Expected subordinate nonterminal transition"),
            };
            n
        },
        _ => unreachable!("Expected nonterminal transition"),
    };
    let test_node_2 = match test_node_1.step(&3) {
        NodeResult::Nonterminal(ret, n) => {
            match ret {
                NontermReturn::Nonterminal(e, v) => {
                    assert_eq!(e, IndexEnum::First);
                    assert_eq!(v, 2);
                },
                _ => unreachable!("Expected subordinate nonterminal transition"),
            };
            n
        },
        _ => unreachable!("Expected nonterminal transition"),
    };
    let test_node_3 = match test_node_2.step(&-1) {
        NodeResult::Nonterminal(ret, n) => {
            match ret {
                NontermReturn::Terminal(e, v) => {
                    assert_eq!(e, IndexEnum::First);
                    assert_eq!(v, 2);
                },
                _ => unreachable!("Expected subordinate nonterminal transition"),
            };
            n
        },
        _ => unreachable!("Expected nonterminal transition"),
    };
    let test_node_4 = match test_node_3.step(&3) {
        NodeResult::Nonterminal(ret, n) => {
            match ret {
                NontermReturn::Nonterminal(e, v) => {
                    assert_eq!(e, IndexEnum::Second);
                    assert_eq!(v, 1);
                },
                _ => unreachable!("Expected subordinate nonterminal transition"),
            };
            n
        },
        _ => unreachable!("Expected nonterminal transition"),
    };
    match test_node_4.step(&-3) {
        NodeResult::Nonterminal(ret, _) => {
            match ret {
                NontermReturn::Terminal(e, v) => {
                    assert_eq!(e, IndexEnum::Second);
                    assert_eq!(v, 1);
                },
                _ => unreachable!("Expected subordinate nonterminal transition"),
            };
        },
        _ => unreachable!("Expected nonterminal transition"),
    };
}

#[test]
fn parallel_runner_test() {
    let test_node = ParallelBranchNode::<CyclePair, ParallelRunner<(), (), (), ()>>::new(
        ParallelRunner::new(),
        CyclePair::new(),
    );
    let test_node_1 = match test_node.step(&()) {
        NodeResult::Nonterminal(v, n) => {
            if matches!(v[0], Statepoint::Nonterminal(Statepoint::Nonterminal(()))) && matches!(
                v[1],
                Statepoint::Nonterminal(Statepoint::Nonterminal(()))
            ) && v.len() == 2 {
                n
            } else {
                unreachable!("Expected only (nonterminal, nonterminal)")
            }
        },
        _ => unreachable!("Expected nonterminal transition"),
    };
    let test_node_2 = match test_node_1.step(&()) {
        NodeResult::Nonterminal(v, n) => {
            if matches!(v[0], Statepoint::Nonterminal(Statepoint::Terminal(()))) && matches!(
                v[1],
                Statepoint::Nonterminal(Statepoint::Nonterminal(()))
            ) {
                n
            } else {
                unreachable!("Expected only (terminal, nonterminal)")
            }
        },
        _ => unreachable!("Expected nonterminal transition"),
    };
    let test_node_3 = match test_node_2.step(&()) {
        NodeResult::Nonterminal(v, n) => {
            if matches!(v[0], Statepoint::Nonterminal(Statepoint::Nonterminal(()))) && matches!(
                v[1],
                Statepoint::Nonterminal(Statepoint::Terminal(()))
            ) {
                n
            } else {
                unreachable!("Expected only (nonterminal, terminal)")
            }
        },
        _ => unreachable!("Expected nonterminal transition"),
    };
    let test_node_4 = match test_node_3.step(&()) {
        NodeResult::Nonterminal(v, n) => {
            if matches!(v[0], Statepoint::Nonterminal(Statepoint::Terminal(()))) && matches!(
                v[1],
                Statepoint::Nonterminal(Statepoint::Nonterminal(()))
            ) {
                n
            } else {
                unreachable!("Expected only (terminal, nonterminal)")
            }
        },
        _ => unreachable!("Expected nonterminal transition"),
    };
    let test_node_5 = match test_node_4.step(&()) {
        NodeResult::Nonterminal(v, n) => {
            if matches!(v[0], Statepoint::Nonterminal(Statepoint::Nonterminal(()))) && matches!(
                v[1],
                Statepoint::Nonterminal(Statepoint::Nonterminal(()))
            ) {
                n
            } else {
                unreachable!("Expected only (nonterminal, nonterminal)")
            }
        },
        _ => unreachable!("Expected nonterminal transition"),
    };
    match test_node_5.step(&()) {
        NodeResult::Terminal(_) => (),
        _ => unreachable!("Expected terminal transition"),
    };
}

#[test]
fn parallel_racer_test() {
    let test_node = ParallelBranchNode::<RacingCyclePair, ParallelRacer<(), (), ()>>::new(
        ParallelRacer::new(),
        RacingCyclePair::new(),
    );
    let test_node_1 = match test_node.step(&()) {
        NodeResult::Nonterminal(_, n) => n,
        _ => unreachable!("Expected nonterminal transition"),
    };
    match test_node_1.step(&()) {
        NodeResult::Terminal(_) => (),
        _ => unreachable!("Expected terminal transition"),
    };
}

#[test]
fn parallel_racer_scenario_test() {
    // One child terminates on its second tick, the other on its third:
    // the race must exit on the second tick, reporting the first child's
    // index and its terminal value, and never step past that tick.
    let test_node = ParallelBranchNode::<RacingCyclePair, ParallelRacer<(), (), ()>>::new(
        ParallelRacer::new(),
        RacingCyclePair::new(),
    );
    let test_node_1 = match test_node.step(&()) {
        NodeResult::Nonterminal(_, n) => n,
        _ => unreachable!("Expected nonterminal transition"),
    };
    match test_node_1.step(&()) {
        NodeResult::Terminal((index, value)) => {
            assert_eq!(index, 0);
            assert_eq!(value, ());
        },
        _ => unreachable!("Expected terminal transition"),
    };
}

#[test]
fn serial_selector_exhaustion_test() {
    // When every subnode fails (terminates below the success threshold),
    // the selector walks past the last variant and exits empty-handed.
    let test_node =
        SerialBranchNode::<WrappedMachine, SerialSelector<IndexEnum, i64, i64, i64>>::new(
            SerialSelector::new(),
            IndexEnum::First,
        );
    let test_node_1 = match test_node.step(&3) {
        NodeResult::Nonterminal(_, n) => n,
        _ => unreachable!("Expected nonterminal transition"),
    };
    let test_node_2 = match test_node_1.step(&-1) {
        NodeResult::Nonterminal(ret, n) => {
            match ret {
                NontermReturn::Terminal(e, v) => {
                    assert_eq!(e, IndexEnum::First);
                    assert!(v.is_none());
                },
                _ => unreachable!("Expected subordinate terminal"),
            };
            n
        },
        _ => unreachable!("Expected nonterminal transition"),
    };
    let test_node_3 = match test_node_2.step(&3) {
        NodeResult::Nonterminal(_, n) => n,
        _ => unreachable!("Expected nonterminal transition"),
    };
    match test_node_3.step(&-1) {
        NodeResult::Terminal(t) => assert!(t.is_none()),
        _ => unreachable!("Expected terminal transition"),
    };
    // The ordinal encoding the selector walks is a faithful round trip.
    assert_eq!(IndexEnum::from_u64(IndexEnum::First.to_u64()), Some(IndexEnum::First));
    assert_eq!(IndexEnum::from_u64(IndexEnum::Second.to_u64()), Some(IndexEnum::Second));
    assert_eq!(IndexEnum::from_u64(2), None);
}
