use vstd::prelude::*;

use crate::capability::{Future, Stream};
use crate::poll::PollResult;
use crate::tokens::Tokens;
use crate::wake::WakeHandle;

verus! {

/// A stream temporarily converted into a single-use future.
///
/// The future yields the stream's next step — the next item, or `None` for
/// the end of the sequence — together with the remaining stream, whose
/// ownership is handed back to the caller.  A failure likewise hands the
/// stream back beside the error.  Completion empties the slot that held the
/// stream: polling the future again after that is a contract violation on the
/// caller's side, not a recoverable error, and is excluded by `pollable`.
pub struct StreamFuture<S> {
    /// The wrapped stream, while the single use has not happened yet.
    pub stream: Option<S>,
}

impl<S: Stream> StreamFuture<S> {
    /// The wrapped stream, while the single use has not happened yet.
    pub open spec fn inner(&self) -> Option<S> {
        self.stream
    }

    /// Wrap a stream.  The slot starts occupied.
    pub fn new(s: S) -> (r: StreamFuture<S>)
        ensures
            r.inner() == Some(s),
    {
        StreamFuture { stream: Some(s) }
    }
}

impl<S: Stream> Future for StreamFuture<S> {
    type Item = (Option<S::Item>, S);

    type Error = (S::Error, S);

    /// Resolved once the slot is empty, or as soon as the wrapped stream has
    /// itself delivered its terminal result (wrapping a finished stream
    /// inherits its unpredictability).
    open spec fn resolved(&self) -> bool {
        match self.stream {
            Some(st) => st.done(),
            None => true,
        }
    }

    /// Polling after the single use is a fatal contract violation, so an
    /// emptied slot is not pollable.
    open spec fn pollable(&self) -> bool {
        match self.stream {
            Some(st) => st.pollable(),
            None => false,
        }
    }

    /// The future succeeds with the stream's next step and the remaining
    /// stream: either the first remaining item together with a stream that
    /// continues after it, or the end marker together with the finished
    /// stream.
    open spec fn succeeds_with(&self, v: (Option<S::Item>, S)) -> bool {
        match self.stream {
            Some(st) => match v.0 {
                Some(item) => {
                    &&& st.items().len() > 0
                    &&& item == st.items()[0]
                    &&& !v.1.done()
                    &&& v.1.pollable()
                    &&& v.1.items() == st.items().drop_first()
                    &&& v.1.failure() == st.failure()
                },
                None => {
                    &&& st.items().len() == 0
                    &&& st.failure() is None
                    &&& v.1.done()
                },
            },
            None => false,
        }
    }

    /// A poll of the future is exactly one poll of the held stream, so the
    /// future's record is the stream's own.
    open spec fn polls(&self) -> Seq<u64> {
        match self.stream {
            Some(st) => st.polls(),
            None => Seq::empty(),
        }
    }

    /// A registration with the future is exactly one registration with the
    /// held stream, so the future's record is the stream's own.
    open spec fn registrations(&self) -> Seq<u64> {
        match self.stream {
            Some(st) => st.registrations(),
            None => Seq::empty(),
        }
    }

    /// The future fails with the stream's terminal error and the finished
    /// stream.
    open spec fn fails_with(&self, e: (S::Error, S)) -> bool {
        match self.stream {
            Some(st) => {
                &&& st.items().len() == 0
                &&& st.failure() == Some(e.0)
                &&& e.1.done()
            },
            None => false,
        }
    }

    /// Poll the held stream once.  A pending result retains the stream; any
    /// terminal result takes the stream out of the slot and hands it back to
    /// the caller beside the outcome, win or lose.
    fn poll(&mut self, tokens: &Tokens) -> (r: PollResult<(Option<S::Item>, S), (S::Error, S)>)
        ensures
            r is Pending <==> final(self).inner() is Some,
            old(self).inner() matches Some(st) ==> {
                &&& (r is Pending ==> final(self).polls() == st.polls().push(tokens.spec_bits()))
                &&& (r matches PollResult::Ready(v) ==> v.1.polls() == st.polls().push(
                    tokens.spec_bits(),
                ))
                &&& (r matches PollResult::Failed(e) ==> e.1.polls() == st.polls().push(
                    tokens.spec_bits(),
                ))
            },
    {
        let polled = match &mut self.stream {
            Some(st) => st.poll(tokens),
            None => {
                proof {
                    assert(false);
                }
                return PollResult::Pending;
            },
        };
        match polled {
            PollResult::Pending => PollResult::Pending,
            PollResult::Ready(step) => match self.stream.take() {
                Some(st) => PollResult::Ready((step, st)),
                None => {
                    proof {
                        assert(false);
                    }
                    PollResult::Pending
                },
            },
            PollResult::Failed(e) => match self.stream.take() {
                Some(st) => PollResult::Failed((e, st)),
                None => {
                    proof {
                        assert(false);
                    }
                    PollResult::Pending
                },
            },
        }
    }

    /// Forward the registration while the slot is still occupied; once the
    /// single use is over, do nothing.
    fn schedule(&mut self, wake: &WakeHandle)
        ensures
            old(self).inner() matches Some(st) ==> (final(self).inner() matches Some(st2)
                && st2.registrations() == st.registrations().push(wake.spec_id())),
            old(self).inner() is None ==> *final(self) == *old(self),
    {
        match &mut self.stream {
            Some(st) => st.schedule(wake),
            None => {},
        }
    }
}

} // verus!
