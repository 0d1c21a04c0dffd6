//! Helper state for implementing futures.

use vstd::prelude::*;

verus! {

/// The life cycle of a future: never polled, polled at least once, finished.
#[derive(Copy, Clone, PartialEq, Eq, Structural, Debug)]
pub enum FutureState {
    /// Not polled yet.
    New,
    /// Polled one or more times.
    Polled,
    /// Done.
    Finished,
}

impl Default for FutureState {
    fn default() -> (r: Self)
        ensures
            r == FutureState::New,
    {
        FutureState::New
    }
}

/// The outcome of one poll: the state it leads to and, when ready, the value.
pub struct FutureInternalReturn<T>(pub FutureState, pub Option<T>);

impl<T> FutureInternalReturn<T> {
    /// The outcome of a poll that is still pending.
    pub fn polled() -> (r: Self)
        ensures
            r.0 == FutureState::Polled,
            r.1 is None,
    {
        FutureInternalReturn(FutureState::Polled, None)
    }

    /// The outcome of a poll that finished with `value`.
    pub fn ready(value: T) -> (r: Self)
        ensures
            r.0 == FutureState::Finished,
            r.1 == Some(value),
    {
        FutureInternalReturn(FutureState::Finished, Some(value))
    }

    /// The value of a finished poll, or `None` while pending.
    pub fn into_poll(self) -> (r: Option<T>)
        ensures
            r == self.1,
    {
        self.1
    }
}

impl<T> Default for FutureInternalReturn<T> {
    fn default() -> (r: Self)
        ensures
            r.0 == FutureState::Polled,
            r.1 is None,
    {
        Self::polled()
    }
}

impl FutureState {
    /// Takes over the state of `internal` and hands back its value: `Some`
    /// stands for a ready poll, `None` for a pending one.
    pub fn assign_and_propagate<T>(&mut self, internal: FutureInternalReturn<T>) -> (r: Option<T>)
        ensures
            *final(self) == internal.0,
            r == internal.1,
    {
        *self = internal.0;
        internal.1
    }
}

} // verus!
