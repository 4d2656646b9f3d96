use vstd::prelude::*;

use crate::capability::{FusedFuture, Future};
use crate::poll::PollResult;
use crate::tokens::Tokens;
use crate::wake::WakeHandle;

verus! {

/// A future whose success/error split is folded into one output channel.
///
/// The wrapped future completes with either a success value or an error;
/// the adapter completes, at the very same poll, with a `Result` carrying
/// whichever of the two arrived.  The adapted future itself never fails: its
/// failure channel stays unused.  The wrapped future is held in place and
/// delegated to — the adapter adds no state of its own.
pub struct IntoFuture<F> {
    /// The wrapped future.
    pub future: F,
}

impl<F: Future> IntoFuture<F> {
    /// The wrapped future.
    pub open spec fn inner(&self) -> F {
        self.future
    }

    /// Wrap a future.
    pub fn new(future: F) -> (r: IntoFuture<F>)
        ensures
            r.inner() == future,
    {
        IntoFuture { future }
    }
}

impl<F: Future> Future for IntoFuture<F> {
    type Item = Result<F::Item, F::Error>;

    type Error = F::Error;

    open spec fn resolved(&self) -> bool {
        self.future.resolved()
    }

    open spec fn pollable(&self) -> bool {
        self.future.pollable()
    }

    /// The adapter succeeds with `Ok(v)` exactly where the wrapped future
    /// succeeds with `v`, and with `Err(e)` exactly where it fails with `e`.
    open spec fn succeeds_with(&self, v: Result<F::Item, F::Error>) -> bool {
        match v {
            Ok(x) => self.future.succeeds_with(x),
            Err(e) => self.future.fails_with(e),
        }
    }

    /// The adapted future never uses its failure channel.
    open spec fn fails_with(&self, e: F::Error) -> bool {
        false
    }

    /// A poll of the adapter is exactly one poll of the wrapped future, so
    /// the adapter's record is the wrapped future's own.
    open spec fn polls(&self) -> Seq<u64> {
        self.future.polls()
    }

    /// A registration with the adapter is exactly one registration with the
    /// wrapped future, so the adapter's record is the wrapped future's own.
    open spec fn registrations(&self) -> Seq<u64> {
        self.future.registrations()
    }

    /// Delegate to the wrapped future and fold its outcome: a ready value
    /// becomes `Ready(Ok(..))`, a failure becomes `Ready(Err(..))`, and a
    /// pending result stays pending — completion is never delayed and never
    /// brought forward.
    fn poll(&mut self, tokens: &Tokens) -> (r: PollResult<
        Result<F::Item, F::Error>,
        F::Error,
    >)
        ensures
            !(r is Failed),
            !old(self).resolved() ==> (r is Pending <==> !final(self).resolved()),
    {
        match self.future.poll(tokens) {
            PollResult::Pending => PollResult::Pending,
            PollResult::Ready(v) => PollResult::Ready(Ok(v)),
            PollResult::Failed(e) => PollResult::Ready(Err(e)),
        }
    }

    /// Delegate the registration to the wrapped future.
    fn schedule(&mut self, wake: &WakeHandle) {
        self.future.schedule(wake)
    }
}

impl<F: FusedFuture> FusedFuture for IntoFuture<F> {
    /// Delegate the question to the wrapped future.
    fn is_terminated(&self) -> (r: bool) {
        self.future.is_terminated()
    }
}

} // verus!
