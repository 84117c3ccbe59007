use stackbt::automata_impl::pushdown_automaton::PushdownAutomaton;
use stackbt::samples::machines::{PushBottom, PushFrame};

#[test]
fn pushdown_automaton_check_def() {
    let mut test_pushdown: PushdownAutomaton<i64, i64, PushFrame, PushBottom> =
        PushdownAutomaton::from_iterable(PushBottom { state: 0 }, Vec::new());
    // bottom remembers 0
    assert_eq!(test_pushdown.transition(&3), 0);
    // bottom remembers 3
    assert_eq!(test_pushdown.transition(&4), 3);
    // bottom remembers 4
    assert_eq!(test_pushdown.transition(&0), 4);
    // bottom | frame 0
    assert_eq!(test_pushdown.transition(&5), 0);
    // bottom | frame 5
    assert_eq!(test_pushdown.transition(&0), 5);
    // bottom | frame 5, frame 0
    assert_eq!(test_pushdown.transition(&9), 0);
    // bottom | frame 5, frame 9
    assert_eq!(test_pushdown.transition(&-2), 9);
    // bottom | frame 5
    assert_eq!(test_pushdown.transition(&-1), 5);
    // bottom (remembering 4)
    assert_eq!(test_pushdown.transition(&2), 4);
}

#[test]
fn pushdown_stack_discipline_test() {
    // Bottom pushes a first frame, that frame pushes a second, the second
    // pops: the next tick must be serviced by the first frame, not by the
    // second or by the bottom.
    let mut pushdown: PushdownAutomaton<i64, i64, PushFrame, PushBottom> =
        PushdownAutomaton::new(PushBottom { state: 0 });
    // The bottom remembers 5, so it would answer 5 from here on.
    assert_eq!(pushdown.transition(&5), 0);
    // The bottom pushes the first frame.
    assert_eq!(pushdown.transition(&0), 5);
    // The first frame remembers 4, so it would answer 4 from here on.
    assert_eq!(pushdown.transition(&4), 0);
    // The first frame pushes the second frame.
    assert_eq!(pushdown.transition(&0), 4);
    // The second frame pops itself.
    assert_eq!(pushdown.transition(&-1), 0);
    // Serviced by the first frame again: it answers 4, where the second
    // frame would have answered 0 and the bottom 5.
    assert_eq!(pushdown.transition(&9), 4);
}

#[test]
fn pushdown_pop_on_empty_is_handled_by_bottom() {
    // With an empty stack there is nothing to pop: a negative input goes
    // to the bottom, which has no pop case and simply evolves.
    let mut pushdown: PushdownAutomaton<i64, i64, PushFrame, PushBottom> =
        PushdownAutomaton::new(PushBottom { state: 7 });
    assert_eq!(pushdown.transition(&-3), 7);
    assert_eq!(pushdown.transition(&1), -3);
}
