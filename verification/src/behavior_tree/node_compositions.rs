use vstd::prelude::*;
use crate::behavior_tree::behavior_tree_node::Statepoint;
use crate::behavior_tree::parallel_node::ParallelDecider;
use crate::behavior_tree::serial_node::{NontermDecision, SerialDecider, TermDecision};

verus! {

/// An enumerable discriminant: each variant corresponds 1:1 to an ordinal,
/// counted from zero. The serial controllers below advance through the
/// variants in ordinal order.
pub trait EnumOrdinal: Sized + Copy {
    /// The ordinal of this variant.
    spec fn ordinal_spec(self) -> u64;

    /// The variant with a given ordinal, if there is one.
    spec fn from_ordinal_spec(ordinal: u64) -> Option<Self>;

    /// The enumeration is inhabited: there is a variant with ordinal zero.
    proof fn ordinal_zero_exists()
        ensures
            Self::from_ordinal_spec(0) is Some,
    ;

    /// Report the ordinal of this variant.
    fn to_u64(&self) -> (r: u64)
        ensures
            r == self.ordinal_spec(),
            r < u64::MAX,
    ;

    /// Look the variant with the given ordinal up.
    fn from_u64(ordinal: u64) -> (r: Option<Self>)
        ensures
            r == Self::from_ordinal_spec(ordinal),
    ;
}

/// Runs all subnodes in sequence, one at a time, in ordinal order,
/// regardless of how each resolves, and exits once the last is done.
pub struct SerialRunner<E, I, N, T> where E: EnumOrdinal {
    /// The discriminant, input and statepoint types are part of the
    /// policy's identity only.
    pub types: core::marker::PhantomData<(E, I, N, T)>,
}

impl<E, I, N, T> SerialRunner<E, I, N, T> where E: EnumOrdinal {
    /// Create a new serial runner policy.
    pub fn new() -> (r: Self)
        ensures
            r == (SerialRunner::<E, I, N, T> { types: core::marker::PhantomData }),
    {
        SerialRunner { types: core::marker::PhantomData }
    }
}

impl<E, I, N, T> SerialDecider for SerialRunner<E, I, N, T> where E: EnumOrdinal {
    type Enum = E;
    type Input = I;
    type Nonterm = N;
    type Term = T;
    type Exit = ();

    open spec fn nonterm_spec(self, input: I, ordinal: E, statept: N) -> NontermDecision<
        E,
        N,
        (),
    > {
        NontermDecision::Step(statept)
    }

    open spec fn term_spec(self, input: I, ordinal: E, statept: T) -> TermDecision<E, T, ()> {
        match E::from_ordinal_spec((ordinal.ordinal_spec() + 1) as u64) {
            Some(e) => TermDecision::Trans(e, statept),
            None => TermDecision::Exit(()),
        }
    }

    fn on_nonterminal(&self, input: &I, ordinal: E, statept: N) -> (d: NontermDecision<
        E,
        N,
        (),
    >) {
        NontermDecision::Step(statept)
    }

    fn on_terminal(&self, input: &I, ordinal: E, statept: T) -> (d: TermDecision<E, T, ()>) {
        match E::from_u64(ordinal.to_u64() + 1) {
            Some(e) => TermDecision::Trans(e, statept),
            None => TermDecision::Exit(()),
        }
    }
}

/// Runs subnodes in sequence until one resolves into a present value,
/// which depending on context may be either success or failure; exits with
/// that value and the discriminant it came from, or with nothing once the
/// last subnode is done.
pub struct SerialSelector<E, I, N, T> where E: EnumOrdinal {
    /// The discriminant, input and statepoint types are part of the
    /// policy's identity only.
    pub types: core::marker::PhantomData<(E, I, N, T)>,
}

impl<E, I, N, T> SerialSelector<E, I, N, T> where E: EnumOrdinal {
    /// Create a new serial selector policy.
    pub fn new() -> (r: Self)
        ensures
            r == (SerialSelector::<E, I, N, T> { types: core::marker::PhantomData }),
    {
        SerialSelector { types: core::marker::PhantomData }
    }
}

impl<E, I, N, T> SerialDecider for SerialSelector<E, I, N, T> where E: EnumOrdinal {
    type Enum = E;
    type Input = I;
    type Nonterm = N;
    type Term = Option<T>;
    type Exit = Option<(E, T)>;

    open spec fn nonterm_spec(self, input: I, ordinal: E, statept: N) -> NontermDecision<
        E,
        N,
        Option<(E, T)>,
    > {
        NontermDecision::Step(statept)
    }

    open spec fn term_spec(self, input: I, ordinal: E, statept: Option<T>) -> TermDecision<
        E,
        Option<T>,
        Option<(E, T)>,
    > {
        match statept {
            Some(t) => TermDecision::Exit(Some((ordinal, t))),
            None => match E::from_ordinal_spec((ordinal.ordinal_spec() + 1) as u64) {
                Some(e) => TermDecision::Trans(e, None),
                None => TermDecision::Exit(None),
            },
        }
    }

    fn on_nonterminal(&self, input: &I, ordinal: E, statept: N) -> (d: NontermDecision<
        E,
        N,
        Option<(E, T)>,
    >) {
        NontermDecision::Step(statept)
    }

    fn on_terminal(&self, input: &I, ordinal: E, statept: Option<T>) -> (d: TermDecision<
        E,
        Option<T>,
        Option<(E, T)>,
    >) {
        match statept {
            Some(t) => TermDecision::Exit(Some((ordinal, t))),
            None => match E::from_u64(ordinal.to_u64() + 1) {
                Some(e) => TermDecision::Trans(e, None),
                None => TermDecision::Exit(None),
            },
        }
    }
}

/// Runs all subnodes in sequence, one at a time, in ordinal order, and
/// from the end repeats back to the beginning, indefinitely.
pub struct SerialRepeater<E, I, N, T> where E: EnumOrdinal {
    /// The discriminant, input and statepoint types are part of the
    /// policy's identity only.
    pub types: core::marker::PhantomData<(E, I, N, T)>,
}

impl<E, I, N, T> SerialRepeater<E, I, N, T> where E: EnumOrdinal {
    /// Create a new serial repeater policy.
    pub fn new() -> (r: Self)
        ensures
            r == (SerialRepeater::<E, I, N, T> { types: core::marker::PhantomData }),
    {
        SerialRepeater { types: core::marker::PhantomData }
    }
}

impl<E, I, N, T> SerialDecider for SerialRepeater<E, I, N, T> where E: EnumOrdinal {
    type Enum = E;
    type Input = I;
    type Nonterm = N;
    type Term = T;
    type Exit = ();

    open spec fn nonterm_spec(self, input: I, ordinal: E, statept: N) -> NontermDecision<
        E,
        N,
        (),
    > {
        NontermDecision::Step(statept)
    }

    open spec fn term_spec(self, input: I, ordinal: E, statept: T) -> TermDecision<E, T, ()> {
        match E::from_ordinal_spec((ordinal.ordinal_spec() + 1) as u64) {
            Some(e) => TermDecision::Trans(e, statept),
            None => TermDecision::Trans(E::from_ordinal_spec(0)->Some_0, statept),
        }
    }

    fn on_terminal(&self, input: &I, ordinal: E, statept: T) -> (d: TermDecision<E, T, ()>) {
        match E::from_u64(ordinal.to_u64() + 1) {
            Some(e) => TermDecision::Trans(e, statept),
            None => {
                match E::from_u64(0) {
                    Some(e) => TermDecision::Trans(e, statept),
                    None => {
                        proof {
                            E::ordinal_zero_exists();
                        }
                        unreached()
                    },
                }
            },
        }
    }

    fn on_nonterminal(&self, input: &I, ordinal: E, statept: N) -> (d: NontermDecision<
        E,
        N,
        (),
    >) {
        NontermDecision::Step(statept)
    }
}

/// Whether any child is still pending: reporting a nonterminal that is not
/// itself a trap state.
pub open spec fn any_pending<N, R, T>(states: Seq<Statepoint<Statepoint<N, R>, T>>) -> bool {
    exists|j: int|
        0 <= j < states.len() && (#[trigger] states[j]) matches Statepoint::Nonterminal(
            Statepoint::Nonterminal(_),
        )
}

/// The resolution of one child that is no longer pending: a trap state
/// becomes a nonterminal of the exit vector, an outright terminal stays
/// terminal.
pub open spec fn trap_value<N, R, T>(state: Statepoint<Statepoint<N, R>, T>) -> Statepoint<R, T> {
    match state {
        Statepoint::Nonterminal(v) => match v {
            Statepoint::Terminal(k) => Statepoint::Nonterminal(k),
            Statepoint::Nonterminal(_) => arbitrary(),
        },
        Statepoint::Terminal(k) => Statepoint::Terminal(k),
    }
}

/// The resolutions of all children, in order.
pub open spec fn trap_values<N, R, T>(states: Seq<Statepoint<Statepoint<N, R>, T>>) -> Seq<
    Statepoint<R, T>,
> {
    states.map_values(|state| trap_value(state))
}

/// Runs children in parallel until at some point they all terminate or
/// enter a trap state, indicated by returning a statepoint terminal as the
/// nonterminal; exits with the vector of resolutions.
pub struct ParallelRunner<I, N, R, T> {
    /// The input and statepoint types are part of the policy's identity
    /// only.
    pub types: core::marker::PhantomData<(I, N, R, T)>,
}

impl<I, N, R, T> ParallelRunner<I, N, R, T> {
    /// Create a new parallel runner policy.
    pub fn new() -> (r: Self)
        ensures
            r == (ParallelRunner::<I, N, R, T> { types: core::marker::PhantomData }),
    {
        ParallelRunner { types: core::marker::PhantomData }
    }
}

impl<I, N, R, T> ParallelDecider for ParallelRunner<I, N, R, T> {
    type Input = I;
    type Nonterm = Statepoint<N, R>;
    type Term = T;
    type Exit = Vec<Statepoint<R, T>>;

    open spec fn each_step_ok(
        self,
        input: I,
        states: Vec<Statepoint<Statepoint<N, R>, T>>,
        result: Statepoint<Vec<Statepoint<Statepoint<N, R>, T>>, Vec<Statepoint<R, T>>>,
    ) -> bool {
        if any_pending(states@) {
            result == Statepoint::<Vec<Statepoint<Statepoint<N, R>, T>>, Vec<
                Statepoint<R, T>,
            >>::Nonterminal(states)
        } else {
            result matches Statepoint::Terminal(ex) && ex@ == trap_values(states@)
        }
    }

    fn each_step(&self, input: &I, states: Vec<Statepoint<Statepoint<N, R>, T>>) -> (result:
        Statepoint<Vec<Statepoint<Statepoint<N, R>, T>>, Vec<Statepoint<R, T>>>) {
        let mut pending = false;
        let mut j: usize = 0;
        while j < states.len()
            invariant
                j <= states@.len(),
                pending <==> exists|k: int|
                    0 <= k < j && (#[trigger] states@[k]) matches Statepoint::Nonterminal(
                        Statepoint::Nonterminal(_),
                    ),
            decreases states@.len() - j,
        {
            match &states[j] {
                Statepoint::Nonterminal(v) => {
                    match v {
                        Statepoint::Nonterminal(_) => {
                            pending = true;
                        },
                        Statepoint::Terminal(_) => {
                        },
                    }
                },
                Statepoint::Terminal(_) => {
                },
            }
            j += 1;
        }
        if pending {
            Statepoint::Nonterminal(states)
        } else {
            let ghost all = states@;
            let mut rest = states;
            let mut resolved: Vec<Statepoint<R, T>> = Vec::new();
            while rest.len() > 0
                invariant
                    !any_pending(all),
                    resolved@.len() + rest@.len() == all.len(),
                    rest@ == all.skip(resolved@.len() as int),
                    forall|k: int|
                        0 <= k < resolved@.len() ==> #[trigger] resolved@[k] == trap_value(all[k]),
                decreases rest@.len(),
            {
                let ghost k = resolved@.len() as int;
                proof {
                    assert(rest@[0] == all[k]);
                    assert(!(all[k] matches Statepoint::Nonterminal(Statepoint::Nonterminal(_))));
                }
                let state = rest.remove(0);
                match state {
                    Statepoint::Nonterminal(v) => {
                        match v {
                            Statepoint::Terminal(t) => {
                                resolved.push(Statepoint::Nonterminal(t));
                            },
                            Statepoint::Nonterminal(_) => {
                                proof {
                                    assert(false);
                                }
                            },
                        }
                    },
                    Statepoint::Terminal(t) => {
                        resolved.push(Statepoint::Terminal(t));
                    },
                }
                proof {
                    assert(rest@ =~= all.skip(resolved@.len() as int));
                }
            }
            proof {
                assert(resolved@ =~= trap_values(all));
            }
            Statepoint::Terminal(resolved)
        }
    }
}

/// Whether any child has terminated outright.
pub open spec fn has_terminal<N, T>(states: Seq<Statepoint<N, T>>) -> bool {
    exists|j: int| 0 <= j < states.len() && (#[trigger] states[j]) is Terminal
}

/// Runs children in parallel until one terminates, exiting with the index
/// of the first terminated child, in stepping order, and its terminal
/// state.
pub struct ParallelRacer<I, N, T> {
    /// The input and statepoint types are part of the policy's identity
    /// only.
    pub types: core::marker::PhantomData<(I, N, T)>,
}

impl<I, N, T> ParallelRacer<I, N, T> {
    /// Create a new parallel racer policy.
    pub fn new() -> (r: Self)
        ensures
            r == (ParallelRacer::<I, N, T> { types: core::marker::PhantomData }),
    {
        ParallelRacer { types: core::marker::PhantomData }
    }
}

impl<I, N, T> ParallelDecider for ParallelRacer<I, N, T> {
    type Input = I;
    type Nonterm = N;
    type Term = T;
    type Exit = (usize, T);

    open spec fn each_step_ok(
        self,
        input: I,
        states: Vec<Statepoint<N, T>>,
        result: Statepoint<Vec<Statepoint<N, T>>, (usize, T)>,
    ) -> bool {
        if has_terminal(states@) {
            exists|j: int|
                0 <= j < states@.len() && ((#[trigger] states@[j]) matches Statepoint::Terminal(t)
                    && result == Statepoint::<Vec<Statepoint<N, T>>, (usize, T)>::Terminal(
                    (j as usize, t),
                )) && (forall|k: int| 0 <= k < j ==> !((#[trigger] states@[k]) is Terminal))
        } else {
            result == Statepoint::<Vec<Statepoint<N, T>>, (usize, T)>::Nonterminal(states)
        }
    }

    fn each_step(&self, input: &I, states: Vec<Statepoint<N, T>>) -> (result: Statepoint<
        Vec<Statepoint<N, T>>,
        (usize, T),
    >) {
        let mut take_index: Option<usize> = None;
        let mut j: usize = 0;
        while j < states.len()
            invariant
                j <= states@.len(),
                match take_index {
                    None => forall|k: int| 0 <= k < j ==> !((#[trigger] states@[k]) is Terminal),
                    Some(i) => i < j && states@[i as int] is Terminal && (forall|k: int|
                        0 <= k < i ==> !((#[trigger] states@[k]) is Terminal)),
                },
            decreases states@.len() - j,
        {
            if take_index.is_none() {
                match &states[j] {
                    Statepoint::Terminal(_) => {
                        take_index = Some(j);
                    },
                    Statepoint::Nonterminal(_) => {
                    },
                }
            }
            j += 1;
        }
        match take_index {
            None => Statepoint::Nonterminal(states),
            Some(index) => {
                let mut rest = states;
                let val = rest.remove(index);
                match val {
                    Statepoint::Terminal(k) => Statepoint::Terminal((index, k)),
                    Statepoint::Nonterminal(_) => unreached(),
                }
            },
        }
    }
}

} // verus!
