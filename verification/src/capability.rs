use vstd::prelude::*;

use crate::poll::PollResult;
use crate::tokens::Tokens;
use crate::wake::WakeHandle;

verus! {

/// A single eventually-available value or error, driven by explicit polling.
///
/// An implementation describes itself through four specification functions:
/// `resolved` says whether the terminal result has already been delivered (a
/// resolved future makes no further promises), `pollable` says in which states
/// `poll` may be invoked, and `succeeds_with`/`fails_with` characterize the
/// terminal results the future may still deliver.  `poll` then promises: while
/// the future is unresolved, a pending poll changes nothing observable, and a
/// terminal poll delivers a result the characterization admits.
pub trait Future: Sized {
    /// The type of the value this future eventually yields.
    type Item;

    /// The type of the error this future may fail with.
    type Error;

    /// Whether the terminal result has already been delivered.  The default
    /// says never; a verified implementation overrides it to describe itself.
    open spec fn resolved(&self) -> bool {
        false
    }

    /// The states in which `poll` may be invoked.  The default says always;
    /// a verified implementation overrides it to describe itself.
    open spec fn pollable(&self) -> bool {
        true
    }

    /// The successful results this future may deliver.  The default admits
    /// every result; a verified implementation overrides it to pin its own
    /// down.
    open spec fn succeeds_with(&self, v: Self::Item) -> bool {
        true
    }

    /// The failures this future may deliver.  The default admits every
    /// failure; a verified implementation overrides it to pin its own down.
    open spec fn fails_with(&self, e: Self::Error) -> bool {
        true
    }

    /// The bitmasks of the token sets this future has been polled with.
    open spec fn polls(&self) -> Seq<u64> {
        Seq::empty()
    }

    /// The identities of the wake handles registered with this future,
    /// oldest first — it makes wake forwarding observable in contracts.
    open spec fn registrations(&self) -> Seq<u64> {
        Seq::empty()
    }

    /// Query the future without blocking.  `tokens` names the readiness
    /// sources currently known to be ready; it is a filtering hint and never
    /// changes which terminal results are admissible.  A pending poll of an
    /// unresolved future leaves its record in `polls`: answering `Pending`
    /// without consulting the underlying computation is not allowed.
    fn poll(&mut self, tokens: &Tokens) -> (r: PollResult<Self::Item, Self::Error>)
        requires
            old(self).pollable(),
        ensures
            !old(self).resolved() && r is Pending ==> final(self).polls() == old(
                self,
            ).polls().push(tokens.spec_bits()),
            !old(self).resolved() ==> match r {
                PollResult::Pending => {
                    &&& !final(self).resolved()
                    &&& final(self).pollable()
                    &&& forall|v: Self::Item|
                        #[trigger] final(self).succeeds_with(v) <==> old(self).succeeds_with(v)
                    &&& forall|e: Self::Error|
                        #[trigger] final(self).fails_with(e) <==> old(self).fails_with(e)
                },
                PollResult::Ready(v) => final(self).resolved() && old(self).succeeds_with(v),
                PollResult::Failed(e) => final(self).resolved() && old(self).fails_with(e),
            },
    ;

    /// Register interest in being polled again.  Registration is a pure side
    /// effect towards the driver: it never changes what the future promises.
    /// While the future is unresolved it leaves its record in
    /// `registrations`: dropping a registration before the terminal result is
    /// delivered is not allowed.
    fn schedule(&mut self, wake: &WakeHandle)
        ensures
            !old(self).resolved() ==> final(self).registrations() == old(
                self,
            ).registrations().push(wake.spec_id()),
            final(self).resolved() == old(self).resolved(),
            final(self).pollable() == old(self).pollable(),
            final(self).polls() == old(self).polls(),
            forall|v: Self::Item|
                #[trigger] final(self).succeeds_with(v) <==> old(self).succeeds_with(v),
            forall|e: Self::Error|
                #[trigger] final(self).fails_with(e) <==> old(self).fails_with(e),
    ;
}

/// A future that can report whether it has terminated and should no longer be
/// polled.
pub trait FusedFuture: Future {
    /// Whether the future has terminated.  A `true` answer means the terminal
    /// result has been delivered.
    fn is_terminated(&self) -> (r: bool)
        ensures
            r ==> self.resolved(),
    ;
}

/// An ordered, eventually-available sequence of values, terminated by an end
/// marker or by an error, driven by explicit polling.
///
/// An implementation describes itself through `items`, the sequence of values
/// it has yet to yield, and `failure`, the way the sequence terminates after
/// those values: a clean end (`None`) or a failure with an error.  `done` says
/// whether the terminal result has already been delivered, `pollable` says in
/// which states `poll` may be invoked, and `polls` records the token sets the
/// stream has been polled with, oldest first — it makes the readiness filter a
/// combinator applies observable in contracts.
pub trait Stream: Sized {
    /// The type of the values this stream yields.
    type Item;

    /// The type of the error this stream may fail with.
    type Error;

    /// The values this stream has yet to yield, in order.  The defaults of
    /// these five functions are placeholders: a verified implementation
    /// overrides each of them to describe itself.
    open spec fn items(&self) -> Seq<Self::Item> {
        Seq::empty()
    }

    /// How the sequence terminates after `items`: a clean end or a failure.
    open spec fn failure(&self) -> Option<Self::Error> {
        None
    }

    /// Whether the terminal result has already been delivered.
    open spec fn done(&self) -> bool {
        false
    }

    /// The states in which `poll` may be invoked.
    open spec fn pollable(&self) -> bool {
        true
    }

    /// The bitmasks of the token sets this stream has been polled with.
    open spec fn polls(&self) -> Seq<u64> {
        Seq::empty()
    }

    /// The identities of the wake handles registered with this stream,
    /// oldest first — it makes wake forwarding observable in contracts.
    open spec fn registrations(&self) -> Seq<u64> {
        Seq::empty()
    }

    /// Query the stream without blocking.  While the stream is not done, a
    /// ready value is the next item of `items`, the end marker comes exactly
    /// when no items remain and the stream ends cleanly, and a failure comes
    /// exactly when no items remain and the stream terminates in that error.
    fn poll(&mut self, tokens: &Tokens) -> (r: PollResult<Option<Self::Item>, Self::Error>)
        requires
            old(self).pollable(),
        ensures
            final(self).polls() == old(self).polls().push(tokens.spec_bits()),
            !old(self).done() ==> match r {
                PollResult::Pending => {
                    &&& !final(self).done()
                    &&& final(self).pollable()
                    &&& final(self).items() == old(self).items()
                    &&& final(self).failure() == old(self).failure()
                },
                PollResult::Ready(step) => match step {
                    Some(v) => {
                        &&& old(self).items().len() > 0
                        &&& v == old(self).items()[0]
                        &&& !final(self).done()
                        &&& final(self).pollable()
                        &&& final(self).items() == old(self).items().drop_first()
                        &&& final(self).failure() == old(self).failure()
                    },
                    None => {
                        &&& old(self).items().len() == 0
                        &&& old(self).failure() is None
                        &&& final(self).done()
                    },
                },
                PollResult::Failed(e) => {
                    &&& old(self).items().len() == 0
                    &&& old(self).failure() == Some(e)
                    &&& final(self).done()
                },
            },
    ;

    /// Register interest in being polled again.  Registration is a pure side
    /// effect towards the driver: it never changes what the stream promises,
    /// and it always leaves its record in `registrations`: dropping a
    /// registration is not allowed.
    fn schedule(&mut self, wake: &WakeHandle)
        ensures
            final(self).registrations() == old(self).registrations().push(wake.spec_id()),
            final(self).items() == old(self).items(),
            final(self).failure() == old(self).failure(),
            final(self).done() == old(self).done(),
            final(self).pollable() == old(self).pollable(),
            final(self).polls() == old(self).polls(),
    ;
}

/// A declared conversion between error types, used when composition crosses a
/// heterogeneous error boundary (the outer stream of a [`crate::Flatten`]
/// failing while the flat stream reports the inner error type).
///
/// `spec_from` names the converted value, and `from_err` computes it.
pub trait FromError<E>: Sized {
    /// The value the conversion produces.  The default leaves it unspecified;
    /// a verified implementation overrides it to name the value `from_err`
    /// computes.
    open spec fn spec_from(e: E) -> Self {
        vstd::pervasive::arbitrary()
    }

    /// Convert an error into this type.
    fn from_err(e: E) -> (r: Self)
        ensures
            r == Self::spec_from(e),
    ;
}

/// Every error type converts from itself: composition over one homogeneous
/// error type needs no declared conversion.
impl<E> FromError<E> for E {
    open spec fn spec_from(e: E) -> E {
        e
    }

    fn from_err(e: E) -> (r: E) {
        e
    }
}

} // verus!
