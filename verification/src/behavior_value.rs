use vstd::prelude::*;

verus! {

/// A three-valued logical value representing the current state of a
/// behavior node, along with a corresponding decision value.
#[derive(Debug)]
pub enum BehaviorValue<S, R, F> {
    /// The behavior concluded successfully.
    Success(S),
    /// The behavior is still running.
    Running(R),
    /// The behavior concluded in failure.
    Failure(F),
}

impl<S, R, F> BehaviorValue<S, R, F> {
    /// Logical negation: success and failure trade places, a running value
    /// stays running.
    pub fn not(self) -> (r: BehaviorValue<F, R, S>)
        ensures
            match self {
                BehaviorValue::Success(s) => r == BehaviorValue::<F, R, S>::Failure(s),
                BehaviorValue::Running(v) => r == BehaviorValue::<F, R, S>::Running(v),
                BehaviorValue::Failure(f) => r == BehaviorValue::<F, R, S>::Success(f),
            },
    {
        match self {
            BehaviorValue::Success(s) => BehaviorValue::Failure(s),
            BehaviorValue::Running(v) => BehaviorValue::Running(v),
            BehaviorValue::Failure(f) => BehaviorValue::Success(f),
        }
    }
}

} // verus!
