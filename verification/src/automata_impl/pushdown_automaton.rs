use vstd::prelude::*;
use crate::automata_impl::automaton::{Automaton, FiniteStateAutomaton};

verus! {

/// Nonterminal pushdown transition, returned by a stack frame.
pub enum PushdownTransition<A, N> {
    /// Push a new frame onto the pushdown stack.
    Push(A, N),
    /// Keep the frames on the stack as is.
    Stay(A),
    /// Remove the topmost frame from the stack.
    Pop(A),
}

/// Terminal pushdown transition, returned by the bottom automaton, which
/// has no `Pop` case: popping past the bottom is structurally impossible.
pub enum TerminalTransition<A, N> {
    /// Push a new frame onto the pushdown stack.
    Push(A, N),
    /// Keep the frames on the stack as is.
    Stay(A),
}

/// A pushdown automaton: an always-present bottom automaton underneath an
/// ordered, last-in-first-out stack of frame automata. Each tick, the
/// topmost frame (or, with an empty stack, the bottom) services the input,
/// and its returned transition decides whether a frame is pushed, kept, or
/// popped; exactly one frame moves per tick, so pops never cascade.
///
/// The stack lives in a growable vector, which specifications cannot
/// construct, so the machine does not implement the `Automaton` trait;
/// instead `transition` carries the same shape of contract, pinning the
/// action and the new stack contents through `pushdown_step_ok`.
#[verifier::reject_recursive_types(I)]
#[verifier::reject_recursive_types(A)]
#[verifier::reject_recursive_types(N)]
#[verifier::reject_recursive_types(T)]
pub struct PushdownAutomaton<I, A, N, T> where
    N: FiniteStateAutomaton + Automaton<Input = I, Action = PushdownTransition<A, N>>,
    T: FiniteStateAutomaton + Automaton<Input = I, Action = TerminalTransition<A, N>>,
 {
    /// The bottom automaton, never removed, mutated only when the stack is
    /// empty.
    pub bottom: T,
    /// The frame stack; the last element is the topmost frame.
    pub stack: Vec<N>,
}

/// One tick serviced by the topmost frame whose transition pushed `new`:
/// the evolved top is put back and `new` lands above it; with an empty
/// stack, the bottom serviced the tick and `new` becomes the only frame.
pub open spec fn pushdown_push_step<I, A, N, T>(
    bottom: T,
    stack: Seq<N>,
    input: I,
    action: A,
    bottom2: T,
    stack2: Seq<N>,
) -> bool where
    N: FiniteStateAutomaton + Automaton<Input = I, Action = PushdownTransition<A, N>>,
    T: FiniteStateAutomaton + Automaton<Input = I, Action = TerminalTransition<A, N>>,
{
    if stack.len() > 0 {
        exists|top2: N, new: N|
            (#[trigger] stack.last().step_ok(input, PushdownTransition::Push(action, new), top2))
                && stack2 == stack.drop_last().push(top2).push(new) && bottom2 == bottom
    } else {
        exists|bot2: T, new: N|
            (#[trigger] bottom.step_ok(input, TerminalTransition::Push(action, new), bot2))
                && stack2 == seq![new] && bottom2 == bot2
    }
}

/// One tick serviced by the topmost frame whose transition kept the stack:
/// only the evolved top is put back; with an empty stack, only the bottom
/// evolves.
pub open spec fn pushdown_stay_step<I, A, N, T>(
    bottom: T,
    stack: Seq<N>,
    input: I,
    action: A,
    bottom2: T,
    stack2: Seq<N>,
) -> bool where
    N: FiniteStateAutomaton + Automaton<Input = I, Action = PushdownTransition<A, N>>,
    T: FiniteStateAutomaton + Automaton<Input = I, Action = TerminalTransition<A, N>>,
{
    if stack.len() > 0 {
        exists|top2: N|
            (#[trigger] stack.last().step_ok(input, PushdownTransition::Stay(action), top2))
                && stack2 == stack.drop_last().push(top2) && bottom2 == bottom
    } else {
        exists|bot2: T|
            (#[trigger] bottom.step_ok(input, TerminalTransition::Stay(action), bot2)) && stack2
                == stack && bottom2 == bot2
    }
}

/// One tick serviced by the topmost frame whose transition popped: the
/// frame is discarded, not put back, and exactly one frame leaves. Only a
/// frame can pop; the bottom has no `Pop` case.
pub open spec fn pushdown_pop_step<I, A, N, T>(
    bottom: T,
    stack: Seq<N>,
    input: I,
    action: A,
    bottom2: T,
    stack2: Seq<N>,
) -> bool where
    N: FiniteStateAutomaton + Automaton<Input = I, Action = PushdownTransition<A, N>>,
    T: FiniteStateAutomaton + Automaton<Input = I, Action = TerminalTransition<A, N>>,
{
    stack.len() > 0 && exists|top2: N|
        (#[trigger] stack.last().step_ok(input, PushdownTransition::Pop(action), top2)) && stack2
            == stack.drop_last() && bottom2 == bottom
}

/// The transition relation of the pushdown automaton over its bottom and
/// the contents of its stack: every tick is a push, a stay, or a pop.
pub open spec fn pushdown_step_ok<I, A, N, T>(
    bottom: T,
    stack: Seq<N>,
    input: I,
    action: A,
    bottom2: T,
    stack2: Seq<N>,
) -> bool where
    N: FiniteStateAutomaton + Automaton<Input = I, Action = PushdownTransition<A, N>>,
    T: FiniteStateAutomaton + Automaton<Input = I, Action = TerminalTransition<A, N>>,
{
    ||| pushdown_push_step(bottom, stack, input, action, bottom2, stack2)
    ||| pushdown_stay_step(bottom, stack, input, action, bottom2, stack2)
    ||| pushdown_pop_step(bottom, stack, input, action, bottom2, stack2)
}

impl<I, A, N, T> PushdownAutomaton<I, A, N, T> where
    N: FiniteStateAutomaton + Automaton<Input = I, Action = PushdownTransition<A, N>>,
    T: FiniteStateAutomaton + Automaton<Input = I, Action = TerminalTransition<A, N>>,
 {
    /// Well-formedness: the bottom and every stacked frame are
    /// well-formed. A frame handed over by a `Push` transition is the
    /// caller's to account for, so this is a precondition of `transition`
    /// rather than a consequence of it.
    pub open spec fn inv(self) -> bool {
        self.bottom.inv() && forall|j: int| 0 <= j < self.stack@.len() ==> (
        #[trigger] self.stack@[j]).inv()
    }

    /// Create a new pushdown automaton with an empty stack over the given
    /// bottom automaton.
    pub fn new(terminal: T) -> (r: Self)
        ensures
            r.bottom == terminal,
            r.stack@ == Seq::<N>::empty(),
    {
        PushdownAutomaton { bottom: terminal, stack: Vec::new() }
    }

    /// Create a new pushdown automaton from an existing collection of
    /// frames; the last element of the vector is the topmost frame.
    pub fn from_iterable(terminal: T, prepush: Vec<N>) -> (r: Self)
        ensures
            r.bottom == terminal,
            r.stack == prepush,
    {
        PushdownAutomaton { bottom: terminal, stack: prepush }
    }

    /// Service one input: the topmost frame (or the bottom, if the stack is
    /// empty) transitions, and its push, stay, or pop decision is applied
    /// to the stack.
    pub fn transition(&mut self, input: &I) -> (action: A)
        requires
            old(self).inv(),
        ensures
            pushdown_step_ok(
                old(self).bottom,
                old(self).stack@,
                *input,
                action,
                final(self).bottom,
                final(self).stack@,
            ),
    {
        match self.stack.pop() {
            Some(mut val) => {
                let ghost top0 = val;
                let frame_action = val.transition(input);
                let ghost val_after = val;
                proof {
                    assert(top0 == old(self).stack@.last());
                    assert(top0.step_ok(*input, frame_action, val_after));
                }
                match frame_action {
                    PushdownTransition::Push(act, new) => {
                        let ghost new0 = new;
                        self.stack.push(val);
                        self.stack.push(new);
                        proof {
                            assert(old(self).stack@.last().step_ok(
                                *input,
                                PushdownTransition::Push(act, new0),
                                val_after,
                            ));
                            assert(self.stack@ =~= old(self).stack@.drop_last().push(
                                val_after,
                            ).push(new0));
                            assert(pushdown_push_step(
                                old(self).bottom,
                                old(self).stack@,
                                *input,
                                act,
                                self.bottom,
                                self.stack@,
                            ));
                        }
                        act
                    },
                    PushdownTransition::Stay(act) => {
                        self.stack.push(val);
                        proof {
                            assert(old(self).stack@.last().step_ok(
                                *input,
                                PushdownTransition::Stay(act),
                                val_after,
                            ));
                            assert(self.stack@ =~= old(self).stack@.drop_last().push(val_after));
                            assert(pushdown_stay_step(
                                old(self).bottom,
                                old(self).stack@,
                                *input,
                                act,
                                self.bottom,
                                self.stack@,
                            ));
                        }
                        act
                    },
                    PushdownTransition::Pop(act) => {
                        proof {
                            assert(old(self).stack@.last().step_ok(
                                *input,
                                PushdownTransition::Pop(act),
                                val_after,
                            ));
                            assert(self.stack@ =~= old(self).stack@.drop_last());
                            assert(pushdown_pop_step(
                                old(self).bottom,
                                old(self).stack@,
                                *input,
                                act,
                                self.bottom,
                                self.stack@,
                            ));
                        }
                        act
                    },
                }
            },
            None => {
                let ghost bottom0 = self.bottom;
                let bottom_action = self.bottom.transition(input);
                let ghost bottom_after = self.bottom;
                proof {
                    assert(bottom0.step_ok(*input, bottom_action, bottom_after));
                }
                match bottom_action {
                    TerminalTransition::Push(act, new) => {
                        let ghost new0 = new;
                        self.stack.push(new);
                        proof {
                            assert(old(self).bottom.step_ok(
                                *input,
                                TerminalTransition::Push(act, new0),
                                bottom_after,
                            ));
                            assert(self.stack@ =~= seq![new0]);
                            assert(pushdown_push_step(
                                old(self).bottom,
                                old(self).stack@,
                                *input,
                                act,
                                self.bottom,
                                self.stack@,
                            ));
                        }
                        act
                    },
                    TerminalTransition::Stay(act) => {
                        proof {
                            assert(old(self).bottom.step_ok(
                                *input,
                                TerminalTransition::Stay(act),
                                bottom_after,
                            ));
                            assert(pushdown_stay_step(
                                old(self).bottom,
                                old(self).stack@,
                                *input,
                                act,
                                self.bottom,
                                self.stack@,
                            ));
                        }
                        act
                    },
                }
            },
        }
    }
}

/// A push leaves the stack exactly one frame deeper.
pub proof fn lemma_pushdown_push_grows<I, A, N, T>(
    bottom: T,
    stack: Seq<N>,
    input: I,
    action: A,
    bottom2: T,
    stack2: Seq<N>,
) where
    N: FiniteStateAutomaton + Automaton<Input = I, Action = PushdownTransition<A, N>>,
    T: FiniteStateAutomaton + Automaton<Input = I, Action = TerminalTransition<A, N>>,

    requires
        pushdown_push_step(bottom, stack, input, action, bottom2, stack2),
    ensures
        stack2.len() == stack.len() + 1,
{
}

/// A pop removes exactly the topmost frame, leaving the rest and the
/// bottom untouched.
pub proof fn lemma_pushdown_pop_shrinks<I, A, N, T>(
    bottom: T,
    stack: Seq<N>,
    input: I,
    action: A,
    bottom2: T,
    stack2: Seq<N>,
) where
    N: FiniteStateAutomaton + Automaton<Input = I, Action = PushdownTransition<A, N>>,
    T: FiniteStateAutomaton + Automaton<Input = I, Action = TerminalTransition<A, N>>,

    requires
        pushdown_pop_step(bottom, stack, input, action, bottom2, stack2),
    ensures
        stack2 == stack.drop_last(),
        stack2.len() == stack.len() - 1,
        bottom2 == bottom,
{
}

/// After k consecutive pushes with no pop, the stack holds exactly k
/// frames beyond its initial depth.
pub proof fn lemma_pushdown_push_run<I, A, N, T>(
    bottoms: Seq<T>,
    stacks: Seq<Seq<N>>,
    inputs: Seq<I>,
    actions: Seq<A>,
) where
    N: FiniteStateAutomaton + Automaton<Input = I, Action = PushdownTransition<A, N>>,
    T: FiniteStateAutomaton + Automaton<Input = I, Action = TerminalTransition<A, N>>,

    requires
        bottoms.len() == inputs.len() + 1,
        stacks.len() == inputs.len() + 1,
        actions.len() == inputs.len(),
        forall|j: int|
            0 <= j < inputs.len() ==> #[trigger] pushdown_push_step(
                bottoms[j],
                stacks[j],
                inputs[j],
                actions[j],
                bottoms[j + 1],
                stacks[j + 1],
            ),
    ensures
        forall|j: int| 0 <= j < stacks.len() ==> (#[trigger] stacks[j].len()) == stacks[0].len()
            + j,
    decreases inputs.len(),
{
    if inputs.len() > 0 {
        let n = inputs.len() as int;
        assert forall|j: int| 0 <= j < n - 1 implies #[trigger] pushdown_push_step(
            bottoms.drop_last()[j],
            stacks.drop_last()[j],
            inputs.drop_last()[j],
            actions.drop_last()[j],
            bottoms.drop_last()[j + 1],
            stacks.drop_last()[j + 1],
        ) by {
            assert(pushdown_push_step(
                bottoms[j],
                stacks[j],
                inputs[j],
                actions[j],
                bottoms[j + 1],
                stacks[j + 1],
            ));
        }
        lemma_pushdown_push_run(
            bottoms.drop_last(),
            stacks.drop_last(),
            inputs.drop_last(),
            actions.drop_last(),
        );
        lemma_pushdown_push_grows(
            bottoms[n - 1],
            stacks[n - 1],
            inputs[n - 1],
            actions[n - 1],
            bottoms[n],
            stacks[n],
        );
        assert forall|j: int| 0 <= j < stacks.len() implies (#[trigger] stacks[j].len())
            == stacks[0].len() + j by {
            if j < n {
                assert(stacks.drop_last()[j] == stacks[j]);
                assert(stacks.drop_last()[0] == stacks[0]);
                assert(stacks.drop_last()[j].len() == stacks.drop_last()[0].len() + j);
            } else {
                assert(stacks.drop_last()[n - 1] == stacks[n - 1]);
                assert(stacks.drop_last()[0] == stacks[0]);
                assert(stacks.drop_last()[n - 1].len() == stacks.drop_last()[0].len() + (n - 1));
            }
        }
    }
}

/// Last in, first out: a pop directly after a push removes exactly the
/// frame that the push added, re-exposing the frame that was on top before
/// the push (in the state it evolved to while servicing the push), or
/// leaving the stack empty again when the bottom had pushed onto an empty
/// stack, so that the next tick is serviced by the bottom.
pub proof fn lemma_pushdown_push_then_pop<I, A, N, T>(
    bottom: T,
    stack: Seq<N>,
    input1: I,
    action1: A,
    bottom2: T,
    stack2: Seq<N>,
    input2: I,
    action2: A,
    bottom3: T,
    stack3: Seq<N>,
) where
    N: FiniteStateAutomaton + Automaton<Input = I, Action = PushdownTransition<A, N>>,
    T: FiniteStateAutomaton + Automaton<Input = I, Action = TerminalTransition<A, N>>,

    requires
        pushdown_push_step(bottom, stack, input1, action1, bottom2, stack2),
        pushdown_pop_step(bottom2, stack2, input2, action2, bottom3, stack3),
    ensures
        stack3 == stack2.drop_last(),
        stack.len() > 0 ==> stack3.len() == stack.len() && stack3.drop_last() == stack.drop_last(),
        stack.len() == 0 ==> stack3 == Seq::<N>::empty(),
        bottom3 == bottom2,
{
    assert(stack2 == stack2.drop_last().push(stack2.last()));
    if stack.len() > 0 {
        let (top2, new) = choose|top2: N, new: N|
            (#[trigger] stack.last().step_ok(input1, PushdownTransition::Push(action1, new), top2))
                && stack2 == stack.drop_last().push(top2).push(new) && bottom2 == bottom;
        assert(stack3 =~= stack.drop_last().push(top2));
        assert(stack3.drop_last() =~= stack.drop_last());
    } else {
        assert(stack3 =~= Seq::<N>::empty());
    }
}

} // verus!
