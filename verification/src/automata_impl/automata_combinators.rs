use vstd::prelude::*;
use crate::automata_impl::automaton::{Automaton, FiniteStateAutomaton, is_run};

pub use crate::automata_impl::map_wrappers::{LazyConstructedInner, LazyConstructedMachine, LazyConstructor};

verus! {

/// Sequential composition of two automata: each tick, the action of
/// `before` is fed as the input of `after`, and the composite returns
/// `after`'s action.
pub struct MachineSeries<M, N> where M: Automaton, N: Automaton<Input = M::Action> {
    /// The machine fed the composite's input.
    pub before: M,
    /// The machine fed `before`'s action.
    pub after: N,
}

impl<M, N> MachineSeries<M, N> where M: Automaton, N: Automaton<Input = M::Action> {
    /// Create a new series composition.
    pub fn new(before: M, after: N) -> (r: Self)
        ensures
            r == (MachineSeries { before, after }),
    {
        MachineSeries { before, after }
    }
}

impl<M, N> Automaton for MachineSeries<M, N> where M: Automaton, N: Automaton<Input = M::Action> {
    type Input = M::Input;
    type Action = N::Action;

    open spec fn inv(self) -> bool {
        self.before.inv() && self.after.inv()
    }

    open spec fn step_ok(self, input: M::Input, action: N::Action, next: Self) -> bool {
        exists|mid: M::Action|
            (#[trigger] self.before.step_ok(input, mid, next.before)) && self.after.step_ok(
                mid,
                action,
                next.after,
            )
    }

    fn transition(&mut self, input: &M::Input) -> (action: N::Action) {
        let mid = self.before.transition(input);
        self.after.transition(&mid)
    }
}

impl<M, N> FiniteStateAutomaton for MachineSeries<M, N> where
    M: FiniteStateAutomaton,
    N: FiniteStateAutomaton + Automaton<Input = M::Action>,
 {

}

impl<M, N> Clone for MachineSeries<M, N> where
    M: FiniteStateAutomaton,
    N: FiniteStateAutomaton + Automaton<Input = M::Action>,
 {
    fn clone(&self) -> (other: Self)
        ensures
            other == *self,
    {
        MachineSeries { before: self.before, after: self.after }
    }
}

impl<M, N> Copy for MachineSeries<M, N> where
    M: FiniteStateAutomaton,
    N: FiniteStateAutomaton + Automaton<Input = M::Action>,
 {

}

/// One step of a series composition is one step of `before` chained into
/// one step of `after`: feeding `input` to the composite relates exactly as
/// feeding `input` to `before` and its action to `after`.
pub proof fn lemma_series_step<M, N>(
    s: MachineSeries<M, N>,
    input: M::Input,
    mid: M::Action,
    action: N::Action,
    next: MachineSeries<M, N>,
) where M: Automaton, N: Automaton<Input = M::Action>
    requires
        s.before.step_ok(input, mid, next.before),
        s.after.step_ok(mid, action, next.after),
    ensures
        s.step_ok(input, action, next),
{
}

/// Conversely, every step of a series composition factors through some
/// intermediate action of `before`.
pub proof fn lemma_series_decomposes<M, N>(
    s: MachineSeries<M, N>,
    input: M::Input,
    action: N::Action,
    next: MachineSeries<M, N>,
) where M: Automaton, N: Automaton<Input = M::Action>
    requires
        s.step_ok(input, action, next),
    ensures
        exists|mid: M::Action|
            (#[trigger] s.before.step_ok(input, mid, next.before)) && s.after.step_ok(
                mid,
                action,
                next.after,
            ),
{
}

/// Running a series composition for any number of ticks is running
/// `before` on the inputs and `after` on `before`'s actions: the two
/// component runs compose, state for state and action for action, into a
/// run of the series.
pub proof fn lemma_series_run<M, N>(
    befores: Seq<M>,
    afters: Seq<N>,
    inputs: Seq<M::Input>,
    mids: Seq<M::Action>,
    actions: Seq<N::Action>,
) where M: Automaton, N: Automaton<Input = M::Action>
    requires
        is_run(befores, inputs, mids),
        is_run(afters, mids, actions),
    ensures
        is_run(
            Seq::new(
                befores.len(),
                |j: int| MachineSeries { before: befores[j], after: afters[j] },
            ),
            inputs,
            actions,
        ),
{
    let series = Seq::new(
        befores.len(),
        |j: int| MachineSeries { before: befores[j], after: afters[j] },
    );
    assert forall|j: int| 0 <= j < inputs.len() implies #[trigger] series[j].step_ok(
        inputs[j],
        actions[j],
        series[j + 1],
    ) by {
        assert(befores[j].step_ok(inputs[j], mids[j], befores[j + 1]));
        assert(afters[j].step_ok(mids[j], actions[j], afters[j + 1]));
        lemma_series_step(series[j], inputs[j], mids[j], actions[j], series[j + 1]);
    }
}

/// Conversely, every run of a series composition factors into a run of
/// `before` on the inputs and a run of `after` on some intermediate
/// actions of `before`.
pub proof fn lemma_series_run_components<M, N>(
    series: Seq<MachineSeries<M, N>>,
    inputs: Seq<M::Input>,
    actions: Seq<N::Action>,
) -> (mids: Seq<M::Action>) where M: Automaton, N: Automaton<Input = M::Action>
    requires
        is_run(series, inputs, actions),
    ensures
        is_run(series.map_values(|s: MachineSeries<M, N>| s.before), inputs, mids),
        is_run(series.map_values(|s: MachineSeries<M, N>| s.after), mids, actions),
{
    let befores = series.map_values(|s: MachineSeries<M, N>| s.before);
    let afters = series.map_values(|s: MachineSeries<M, N>| s.after);
    let mids = Seq::new(
        inputs.len() as nat,
        |j: int|
            choose|mid: M::Action|
                (#[trigger] series[j].before.step_ok(inputs[j], mid, series[j + 1].before))
                    && series[j].after.step_ok(mid, actions[j], series[j + 1].after),
    );
    assert forall|j: int| 0 <= j < inputs.len() implies #[trigger] befores[j].step_ok(
        inputs[j],
        mids[j],
        befores[j + 1],
    ) by {
        assert(series[j].step_ok(inputs[j], actions[j], series[j + 1]));
        let mid = choose|mid: M::Action|
            (#[trigger] series[j].before.step_ok(inputs[j], mid, series[j + 1].before))
                && series[j].after.step_ok(mid, actions[j], series[j + 1].after);
        assert(befores[j] == series[j].before);
        assert(befores[j + 1] == series[j + 1].before);
        assert(mids[j] == mid);
    }
    assert forall|j: int| 0 <= j < mids.len() implies #[trigger] afters[j].step_ok(
        mids[j],
        actions[j],
        afters[j + 1],
    ) by {
        assert(series[j].step_ok(inputs[j], actions[j], series[j + 1]));
        let mid = choose|mid: M::Action|
            (#[trigger] series[j].before.step_ok(inputs[j], mid, series[j + 1].before))
                && series[j].after.step_ok(mid, actions[j], series[j + 1].after);
        assert(afters[j] == series[j].after);
        assert(afters[j + 1] == series[j + 1].after);
        assert(mids[j] == mid);
    }
    assert(is_run(befores, inputs, mids));
    assert(is_run(afters, mids, actions));
    mids
}

/// Series composition with the intermediate value also returned: each tick
/// yields the pair of `before`'s action and `after`'s reaction to it.
pub struct MachineTee<M, N> where M: Automaton, N: Automaton<Input = M::Action> {
    /// The machine fed the composite's input.
    pub before: M,
    /// The machine fed `before`'s action.
    pub after: N,
}

impl<M, N> MachineTee<M, N> where M: Automaton, N: Automaton<Input = M::Action> {
    /// Create a new tee composition.
    pub fn new(before: M, after: N) -> (r: Self)
        ensures
            r == (MachineTee { before, after }),
    {
        MachineTee { before, after }
    }
}

impl<M, N> Automaton for MachineTee<M, N> where
    M: Automaton,
    N: Automaton<Input = M::Action>,
    M::Action: Copy,
 {
    type Input = M::Input;
    type Action = (M::Action, N::Action);

    open spec fn inv(self) -> bool {
        self.before.inv() && self.after.inv()
    }

    open spec fn step_ok(self, input: M::Input, action: (M::Action, N::Action), next: Self) -> bool {
        &&& self.before.step_ok(input, action.0, next.before)
        &&& self.after.step_ok(action.0, action.1, next.after)
    }

    fn transition(&mut self, input: &M::Input) -> (action: (M::Action, N::Action)) {
        let intermediate = self.before.transition(input);
        let reaction = self.after.transition(&intermediate);
        (intermediate, reaction)
    }
}

impl<M, N> FiniteStateAutomaton for MachineTee<M, N> where
    M: FiniteStateAutomaton,
    N: FiniteStateAutomaton + Automaton<Input = M::Action>,
    M::Action: Copy,
 {

}

impl<M, N> Clone for MachineTee<M, N> where
    M: FiniteStateAutomaton,
    N: FiniteStateAutomaton + Automaton<Input = M::Action>,
    M::Action: Copy,
 {
    fn clone(&self) -> (other: Self)
        ensures
            other == *self,
    {
        MachineTee { before: self.before, after: self.after }
    }
}

impl<M, N> Copy for MachineTee<M, N> where
    M: FiniteStateAutomaton,
    N: FiniteStateAutomaton + Automaton<Input = M::Action>,
    M::Action: Copy,
 {

}

/// One step of a tee composition is exactly one step of `before` paired
/// with one step of `after` on `before`'s action: the returned pair is
/// `(a, b)` where `a` relates `before` to its next state on `input` and
/// `b` relates `after` to its next state on `a`.
pub proof fn lemma_tee_decomposes<M, N>(
    s: MachineTee<M, N>,
    input: M::Input,
    action: (M::Action, N::Action),
    next: MachineTee<M, N>,
) where M: Automaton, N: Automaton<Input = M::Action>, M::Action: Copy
    ensures
        s.step_ok(input, action, next) <==> (s.before.step_ok(input, action.0, next.before)
            && s.after.step_ok(action.0, action.1, next.after)),
{
}

/// Parallel fan-out of two automata: both machines receive the same input,
/// and the composite returns the pair of their actions.
pub struct ParallelMachines<M, N> where M: Automaton, N: Automaton<Input = M::Input> {
    /// The first machine.
    pub first: M,
    /// The second machine, fed the same input as the first.
    pub second: N,
}

impl<M, N> ParallelMachines<M, N> where M: Automaton, N: Automaton<Input = M::Input> {
    /// Create a new parallel composition.
    pub fn new(first: M, second: N) -> (r: Self)
        ensures
            r == (ParallelMachines { first, second }),
    {
        ParallelMachines { first, second }
    }
}

impl<M, N> Automaton for ParallelMachines<M, N> where
    M: Automaton,
    N: Automaton<Input = M::Input>,
 {
    type Input = M::Input;
    type Action = (M::Action, N::Action);

    open spec fn inv(self) -> bool {
        self.first.inv() && self.second.inv()
    }

    open spec fn step_ok(self, input: M::Input, action: (M::Action, N::Action), next: Self) -> bool {
        &&& self.first.step_ok(input, action.0, next.first)
        &&& self.second.step_ok(input, action.1, next.second)
    }

    fn transition(&mut self, input: &M::Input) -> (action: (M::Action, N::Action)) {
        (self.first.transition(input), self.second.transition(input))
    }
}

impl<M, N> FiniteStateAutomaton for ParallelMachines<M, N> where
    M: FiniteStateAutomaton,
    N: FiniteStateAutomaton + Automaton<Input = M::Input>,
 {

}

impl<M, N> Clone for ParallelMachines<M, N> where
    M: FiniteStateAutomaton,
    N: FiniteStateAutomaton + Automaton<Input = M::Input>,
 {
    fn clone(&self) -> (other: Self)
        ensures
            other == *self,
    {
        ParallelMachines { first: self.first, second: self.second }
    }
}

impl<M, N> Copy for ParallelMachines<M, N> where
    M: FiniteStateAutomaton,
    N: FiniteStateAutomaton + Automaton<Input = M::Input>,
 {

}

/// One step of a parallel composition is exactly one independent step of
/// each component on the same input, the composite action being the pair
/// of the component actions.
pub proof fn lemma_parallel_decomposes<M, N>(
    s: ParallelMachines<M, N>,
    input: M::Input,
    action: (M::Action, N::Action),
    next: ParallelMachines<M, N>,
) where M: Automaton, N: Automaton<Input = M::Input>
    ensures
        s.step_ok(input, action, next) <==> (s.first.step_ok(input, action.0, next.first)
            && s.second.step_ok(input, action.1, next.second)),
{
}

/// Stepping a parallel composition any number of times with an input
/// sequence produces, tick for tick, the pairs of actions that stepping the
/// two machines independently with the same inputs produces.
pub proof fn lemma_parallel_run<M, N>(
    firsts: Seq<M>,
    seconds: Seq<N>,
    inputs: Seq<M::Input>,
    first_actions: Seq<M::Action>,
    second_actions: Seq<N::Action>,
) where M: Automaton, N: Automaton<Input = M::Input>
    requires
        is_run(firsts, inputs, first_actions),
        is_run(seconds, inputs, second_actions),
    ensures
        is_run(
            Seq::new(firsts.len(), |j: int| ParallelMachines { first: firsts[j], second: seconds[j] }),
            inputs,
            Seq::new(inputs.len(), |j: int| (first_actions[j], second_actions[j])),
        ),
{
    let pairs = Seq::new(firsts.len(), |j: int| ParallelMachines { first: firsts[j], second: seconds[j] });
    let actions = Seq::new(inputs.len(), |j: int| (first_actions[j], second_actions[j]));
    assert forall|j: int| 0 <= j < inputs.len() implies #[trigger] pairs[j].step_ok(
        inputs[j],
        actions[j],
        pairs[j + 1],
    ) by {
        assert(firsts[j].step_ok(inputs[j], first_actions[j], firsts[j + 1]));
        assert(seconds[j].step_ok(inputs[j], second_actions[j], seconds[j + 1]));
    }
}

/// Conversely, every run of a parallel composition projects onto
/// independent runs of its two machines, each seeing the same inputs and
/// contributing its half of every action pair.
pub proof fn lemma_parallel_run_components<M, N>(
    pairs: Seq<ParallelMachines<M, N>>,
    inputs: Seq<M::Input>,
    actions: Seq<(M::Action, N::Action)>,
) where M: Automaton, N: Automaton<Input = M::Input>
    requires
        is_run(pairs, inputs, actions),
    ensures
        is_run(
            pairs.map_values(|p: ParallelMachines<M, N>| p.first),
            inputs,
            actions.map_values(|a: (M::Action, N::Action)| a.0),
        ),
        is_run(
            pairs.map_values(|p: ParallelMachines<M, N>| p.second),
            inputs,
            actions.map_values(|a: (M::Action, N::Action)| a.1),
        ),
{
    let firsts = pairs.map_values(|p: ParallelMachines<M, N>| p.first);
    let seconds = pairs.map_values(|p: ParallelMachines<M, N>| p.second);
    let first_actions = actions.map_values(|a: (M::Action, N::Action)| a.0);
    let second_actions = actions.map_values(|a: (M::Action, N::Action)| a.1);
    assert forall|j: int| 0 <= j < inputs.len() implies #[trigger] firsts[j].step_ok(
        inputs[j],
        first_actions[j],
        firsts[j + 1],
    ) by {
        assert(pairs[j].step_ok(inputs[j], actions[j], pairs[j + 1]));
        assert(firsts[j] == pairs[j].first);
        assert(firsts[j + 1] == pairs[j + 1].first);
        assert(first_actions[j] == actions[j].0);
    }
    assert forall|j: int| 0 <= j < inputs.len() implies #[trigger] seconds[j].step_ok(
        inputs[j],
        second_actions[j],
        seconds[j + 1],
    ) by {
        assert(pairs[j].step_ok(inputs[j], actions[j], pairs[j + 1]));
        assert(seconds[j] == pairs[j].second);
        assert(seconds[j + 1] == pairs[j + 1].second);
        assert(second_actions[j] == actions[j].1);
    }
}

} // verus!
