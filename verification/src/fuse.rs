use vstd::prelude::*;

use crate::capability::{FusedFuture, Future};
use crate::poll::PollResult;
use crate::tokens::Tokens;
use crate::wake::WakeHandle;

verus! {

/// A future with idempotent terminal behaviour.
///
/// A future is normally unpredictable once it is polled again after it has
/// resolved.  `Fuse` wraps a future and guarantees that at most one terminal
/// result is ever observed: the first `Ready` or `Failed` result drops the
/// wrapped future, every later poll returns `Pending` unconditionally, and
/// every later `schedule` is ignored.
pub struct Fuse<A> {
    /// The wrapped future, while one is still held.
    pub future: Option<A>,
}

impl<A: Future> Fuse<A> {
    /// The wrapped future, while one is still held.
    pub open spec fn inner(&self) -> Option<A> {
        self.future
    }

    /// Whether the wrapped future has delivered its terminal result and been
    /// dropped.  The transition into this state is one-way.
    pub open spec fn completed(&self) -> bool {
        self.future is None
    }

    /// Wrap a future.  The fuse starts active, holding the future.
    pub fn new(f: A) -> (r: Fuse<A>)
        ensures
            r.inner() == Some(f),
            !r.completed(),
    {
        Fuse { future: Some(f) }
    }
}

impl<A: Future> FusedFuture for Fuse<A> {
    /// Whether the fuse is completed: from then on every poll answers
    /// `Pending` and every registration is ignored.
    fn is_terminated(&self) -> (r: bool)
        ensures
            r == self.completed(),
    {
        self.future.is_none()
    }
}

impl<A: Future> Future for Fuse<A> {
    type Item = A::Item;

    type Error = A::Error;

    /// Resolved once completed, or as soon as the wrapped future itself is
    /// resolved (wrapping an already-resolved future inherits its
    /// unpredictability).
    open spec fn resolved(&self) -> bool {
        match self.future {
            Some(f) => f.resolved(),
            None => true,
        }
    }

    open spec fn pollable(&self) -> bool {
        match self.future {
            Some(f) => f.pollable(),
            None => true,
        }
    }

    open spec fn succeeds_with(&self, v: A::Item) -> bool {
        match self.future {
            Some(f) => f.succeeds_with(v),
            None => false,
        }
    }

    open spec fn fails_with(&self, e: A::Error) -> bool {
        match self.future {
            Some(f) => f.fails_with(e),
            None => false,
        }
    }

    /// While active, a poll of the fuse is exactly one poll of the wrapped
    /// future, so the fuse's record is the wrapped future's own.
    open spec fn polls(&self) -> Seq<u64> {
        match self.future {
            Some(f) => f.polls(),
            None => Seq::empty(),
        }
    }

    /// While active, a registration with the fuse is exactly one registration
    /// with the wrapped future, so the fuse's record is the wrapped future's
    /// own.
    open spec fn registrations(&self) -> Seq<u64> {
        match self.future {
            Some(f) => f.registrations(),
            None => Seq::empty(),
        }
    }

    /// Poll the wrapped future while one is held; on a terminal result drop
    /// it, so it is never polled again.  Once completed, return `Pending`
    /// without touching anything.
    fn poll(&mut self, tokens: &Tokens) -> (r: PollResult<A::Item, A::Error>)
        ensures
            old(self).completed() ==> r is Pending && *final(self) == *old(self),
            !(r is Pending) ==> final(self).completed(),
            !old(self).completed() && r is Pending ==> final(self).inner() is Some,
    {
        let polled = match &mut self.future {
            Some(f) => f.poll(tokens),
            None => {
                return PollResult::Pending;
            },
        };
        let terminal = match &polled {
            PollResult::Pending => false,
            PollResult::Ready(_) => true,
            PollResult::Failed(_) => true,
        };
        if terminal {
            self.future = None;
        }
        polled
    }

    /// Forward the registration to the wrapped future while one is held; once
    /// completed, do nothing, so no registration survives completion.
    fn schedule(&mut self, wake: &WakeHandle)
        ensures
            old(self).completed() ==> *final(self) == *old(self),
            old(self).inner() matches Some(f) ==> (!f.resolved() ==> (final(self).inner() matches
                Some(f2) && f2.registrations() == f.registrations().push(wake.spec_id()))),
    {
        match &mut self.future {
            Some(f) => f.schedule(wake),
            None => {},
        }
    }
}

} // verus!
