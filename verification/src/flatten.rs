use vstd::prelude::*;

use crate::capability::{FromError, Stream};
use crate::poll::PollResult;
use crate::tokens::Tokens;
use crate::wake::WakeHandle;

verus! {

/// The items a sequence of inner streams contributes to a flat stream, in
/// order, cut short at the first inner stream that terminates in a failure
/// (items of later streams are never observed).
pub open spec fn flat_items<I: Stream>(ss: Seq<I>) -> Seq<I::Item>
    decreases ss.len(),
{
    if ss.len() == 0 {
        Seq::empty()
    } else if ss[0].failure() is Some {
        ss[0].items()
    } else {
        ss[0].items() + flat_items(ss.drop_first())
    }
}

/// The first failure among a sequence of inner streams, if any.
pub open spec fn flat_failure<I: Stream>(ss: Seq<I>) -> Option<I::Error>
    decreases ss.len(),
{
    if ss.len() == 0 {
        None
    } else if ss[0].failure() is Some {
        ss[0].failure()
    } else {
        flat_failure(ss.drop_first())
    }
}

/// The shape of the poll record a stream accumulates while one flat-stream
/// poll call drives it: `after` extends `before`, the first poll of the call
/// uses `first`, and every later one uses the wildcard set.
pub open spec fn widened_record(before: Seq<u64>, after: Seq<u64>, first: u64) -> bool {
    &&& before.len() <= after.len()
    &&& after.take(before.len() as int) == before
    &&& forall|j: int|
        before.len() <= j < after.len() ==> (#[trigger] after[j]) == (if j == before.len() {
            first
        } else {
            u64::MAX
        })
}

proof fn lemma_widened_record_push(before: Seq<u64>, after: Seq<u64>, first: u64, x: u64)
    requires
        widened_record(before, after, first),
        x == (if after.len() == before.len() {
            first
        } else {
            u64::MAX
        }),
    ensures
        widened_record(before, after.push(x), first),
{
    assert(after.push(x).take(before.len() as int) =~= before);
    assert forall|j: int| before.len() <= j < after.push(x).len() implies (#[trigger] after.push(
        x,
    )[j]) == (if j == before.len() {
        first
    } else {
        u64::MAX
    }) by {
        if j < after.len() {
            assert(after.push(x)[j] == after[j]);
        }
    }
}

/// Law: while no inner stream ahead fails, the flat stream's items are the
/// inner streams' items laid end to end — the outer emission order and each
/// inner stream's own emission order are both preserved, and items of two
/// inner streams are never interleaved.
pub proof fn lemma_flat_items_preserve_order<I: Stream>(ss: Seq<I>)
    requires
        forall|k: int| 0 <= k < ss.len() ==> (#[trigger] ss[k]).failure() is None,
    ensures
        flat_items(ss) == ss.map_values(|s: I| s.items()).flatten(),
    decreases ss.len(),
{
    let mapped = ss.map_values(|s: I| s.items());
    if ss.len() == 0 {
        assert(flat_items(ss) =~= mapped.flatten());
    } else {
        assert(ss[0].failure() is None);
        assert(forall|k: int|
            0 <= k < ss.drop_first().len() ==> (#[trigger] ss.drop_first()[k]).failure()
                is None);
        lemma_flat_items_preserve_order(ss.drop_first());
        assert(mapped.drop_first() =~= ss.drop_first().map_values(|s: I| s.items()));
        assert(flat_items(ss) == ss[0].items() + flat_items(ss.drop_first()));
        assert(mapped.flatten() == mapped.first() + mapped.drop_first().flatten());
    }
}

/// Law: an inner stream that yields no items and ends cleanly is transparent —
/// the flat items and the flat failure are those of the remaining inner
/// streams alone, so later items are unaffected in order.
pub proof fn lemma_empty_inner_transparent<I: Stream>(first: I, rest: Seq<I>)
    requires
        first.items().len() == 0,
        first.failure() is None,
    ensures
        flat_items(seq![first] + rest) == flat_items(rest),
        flat_failure(seq![first] + rest) == flat_failure(rest),
{
    assert((seq![first] + rest).drop_first() =~= rest);
    assert(flat_items(seq![first] + rest) =~= flat_items(rest));
}

/// A stream of streams flattened into one long stream of elements.
///
/// The combinator drains the current inner stream before it asks the outer
/// stream for the next one, so the outer emission order and each inner
/// stream's emission order are both preserved and items of two inner streams
/// are never interleaved.  An outer failure is converted into the inner error
/// type through the declared [`FromError`] conversion; an inner failure is
/// propagated unchanged.
pub struct Flatten<S: Stream> {
    /// The outer stream.
    pub stream: S,
    /// The inner stream currently being drained, if one is held.
    pub next: Option<S::Item>,
    /// The bitmasks of the token sets this combinator has been polled with.
    pub history: Ghost<Seq<u64>>,
}

impl<S> Flatten<S> where
    S: Stream,
    S::Item: Stream,
    <S::Item as Stream>::Error: FromError<S::Error>,
{
    /// The outer stream.
    pub open spec fn outer(&self) -> S {
        self.stream
    }

    /// The inner stream currently being drained, if one is held.
    pub open spec fn inner(&self) -> Option<S::Item> {
        self.next
    }

    /// The inner streams still ahead: the held one, then those the outer
    /// stream has yet to yield.
    pub open spec fn chain(&self) -> Seq<S::Item> {
        match self.next {
            Some(i) => seq![i] + self.stream.items(),
            None => self.stream.items(),
        }
    }

    /// The failure of a flat stream whose inner streams ahead are `chain` and
    /// whose outer stream terminates as `outer_failure` says: the first inner
    /// failure wins, and only a cleanly exhausted chain surfaces the outer
    /// failure, converted into the inner error type.
    pub open spec fn failure_of(
        chain: Seq<S::Item>,
        outer_failure: Option<S::Error>,
    ) -> Option<<S::Item as Stream>::Error> {
        match flat_failure(chain) {
            Some(e) => Some(e),
            None => match outer_failure {
                Some(e) => Some(<S::Item as Stream>::Error::spec_from(e)),
                None => None,
            },
        }
    }

    /// Wrap a stream of streams.  No inner stream is held yet.
    pub fn new(s: S) -> (r: Flatten<S>)
        ensures
            r.outer() == s,
            r.inner() is None,
            r.polls() == Seq::<u64>::empty(),
    {
        Flatten { stream: s, next: None, history: Ghost(Seq::empty()) }
    }
}

impl<S> Stream for Flatten<S> where
    S: Stream,
    S::Item: Stream,
    <S::Item as Stream>::Error: FromError<S::Error>,
{
    type Item = <S::Item as Stream>::Item;

    type Error = <S::Item as Stream>::Error;

    /// The items of the inner streams ahead, in outer emission order and, for
    /// each inner stream, in its own emission order.
    open spec fn items(&self) -> Seq<<S::Item as Stream>::Item> {
        flat_items(self.chain())
    }

    open spec fn failure(&self) -> Option<<S::Item as Stream>::Error> {
        Self::failure_of(self.chain(), self.stream.failure())
    }

    /// Done once the outer stream has delivered its terminal result, or once a
    /// held inner stream has failed.
    open spec fn done(&self) -> bool {
        self.stream.done() || match self.next {
            Some(i) => i.done(),
            None => false,
        }
    }

    /// Pollable while no terminal result has been delivered, provided the
    /// outer stream, the held inner stream and every inner stream the outer
    /// one has yet to yield are themselves pollable and not finished.
    open spec fn pollable(&self) -> bool {
        &&& !self.done()
        &&& self.stream.pollable()
        &&& match self.next {
            Some(i) => i.pollable() && !i.done(),
            None => true,
        }
        &&& forall|k: int|
            0 <= k < self.stream.items().len() ==> (#[trigger] self.stream.items()[k]).pollable()
                && !self.stream.items()[k].done()
    }

    open spec fn polls(&self) -> Seq<u64> {
        self.history@
    }

    /// A registration is forwarded to the held inner stream if one is
    /// present, otherwise to the outer stream, so the flat stream's record is
    /// the outer stream's followed by the held inner's — and it grows at the
    /// end either way, since the outer one is addressed only while no inner
    /// is held.
    open spec fn registrations(&self) -> Seq<u64> {
        self.stream.registrations() + match self.next {
            Some(i) => i.registrations(),
            None => Seq::empty(),
        }
    }

    /// Drain the held inner stream; when none is held, ask the outer stream
    /// for the next one.  At most one of the two is consulted per loop step,
    /// one ready item is returned per call, an exhausted inner stream is
    /// dropped and skipped, an inner failure is returned unchanged, and an
    /// outer failure is returned through the declared conversion.
    ///
    /// Token widening: the caller's tokens describe readiness sources that
    /// were associated with whatever was polled before this call, so they are
    /// used for the first poll of this call only; as soon as a new inner
    /// stream is acquired — which has no readiness source associated with it
    /// yet — every further poll of this call, of the inner and of the outer
    /// stream alike, uses the wildcard set.  The last clause below records
    /// this for the inner stream held when the call returns: it was polled
    /// exactly once during this call, with the caller's tokens if the call
    /// began with it, and with the wildcard set as its very first poll if the
    /// call acquired it from the outer stream.
    fn poll(&mut self, tokens: &Tokens) -> (r: PollResult<
        Option<<S::Item as Stream>::Item>,
        <S::Item as Stream>::Error,
    >)
        ensures
            match final(self).inner() {
                Some(i) => {
                    ||| (old(self).inner() matches Some(i0) && i.polls() == i0.polls().push(
                        tokens.spec_bits(),
                    ))
                    ||| (exists|k: int|
                        0 <= k < old(self).outer().items().len() && i.polls() == (
                        #[trigger] old(self).outer().items()[k]).polls().push(u64::MAX))
                },
                None => true,
            },
            widened_record(
                old(self).outer().polls(),
                final(self).outer().polls(),
                if old(self).inner() is None {
                    tokens.spec_bits()
                } else {
                    u64::MAX
                },
            ),
            old(self).inner() is None ==> final(self).outer().polls().len()
                > old(self).outer().polls().len(),
            (old(self).inner() matches Some(i) && (i.items().len() > 0 || i.failure() is Some))
                ==> final(self).outer() == old(self).outer(),
    {
        self.history = Ghost(self.history@.push(tokens.spec_bits()));
        let all = Tokens::all();
        let mut wide: bool = false;
        let ghost mut consumed: int = 0;
        let ghost mut acq_idx: int = 0;
        let ghost first: u64 = if old(self).next is None {
            tokens.spec_bits()
        } else {
            u64::MAX
        };
        proof {
            assert(self.stream.polls().take(self.stream.polls().len() as int)
                =~= self.stream.polls());
        }
        loop
            invariant
                all.spec_bits() == u64::MAX,
                self.history@ == old(self).history@.push(tokens.spec_bits()),
                !self.done(),
                self.stream.pollable(),
                match self.next {
                    Some(i) => i.pollable() && !i.done(),
                    None => true,
                },
                forall|k: int|
                    0 <= k < self.stream.items().len() ==> (
                    #[trigger] self.stream.items()[k]).pollable()
                        && !self.stream.items()[k].done(),
                self.items() == old(self).items(),
                self.failure() == old(self).failure(),
                0 <= consumed <= old(self).stream.items().len(),
                self.stream.items() == old(self).stream.items().skip(consumed),
                !wide ==> self.next == old(self).next && self.stream == old(self).stream
                    && consumed == 0,
                wide ==> self.next is None,
                first == (if old(self).next is None {
                    tokens.spec_bits()
                } else {
                    u64::MAX
                }),
                widened_record(old(self).stream.polls(), self.stream.polls(), first),
                old(self).next is None && wide ==> self.stream.polls().len()
                    > old(self).stream.polls().len(),
                (old(self).next matches Some(i) && (i.items().len() > 0 || i.failure() is Some))
                    ==> (self.next == old(self).next && self.stream == old(self).stream),
            decreases
                self.stream.items().len() + (if self.next is Some {
                    1int
                } else {
                    0int
                }),
        {
            let mut inner: S::Item;
            if self.next.is_none() {
                let t_out: &Tokens = if wide {
                    &all
                } else {
                    tokens
                };
                let ghost outer_pre = self.stream;
                let rr = self.stream.poll(t_out);
                proof {
                    if wide {
                        lemma_widened_record_push(
                            old(self).stream.polls(),
                            outer_pre.polls(),
                            first,
                            u64::MAX,
                        );
                    } else {
                        lemma_widened_record_push(
                            old(self).stream.polls(),
                            outer_pre.polls(),
                            first,
                            tokens.spec_bits(),
                        );
                    }
                }
                match rr {
                    PollResult::Pending => {
                        return PollResult::Pending;
                    },
                    PollResult::Ready(step) => match step {
                        Some(s) => {
                            proof {
                                acq_idx = consumed;
                                consumed = consumed + 1;
                                assert(outer_pre.items().skip(0) =~= outer_pre.items());
                                assert(s == old(self).stream.items()[acq_idx]);
                                assert(self.stream.items() =~= old(self).stream.items().skip(
                                    consumed,
                                ));
                                assert(seq![s] + self.stream.items() =~= outer_pre.items());
                                assert(acq_idx < old(self).stream.items().len());
                            }
                            inner = s;
                            wide = true;
                        },
                        None => {
                            return PollResult::Ready(None);
                        },
                    },
                    PollResult::Failed(e) => {
                        let converted = <<S::Item as Stream>::Error as FromError<
                            S::Error,
                        >>::from_err(e);
                        return PollResult::Failed(converted);
                    },
                }
            } else {
                inner = match self.next.take() {
                    Some(i) => i,
                    None => {
                        proof {
                            assert(false);
                        }
                        return PollResult::Pending;
                    },
                };
            }
            // An inner stream is in hand and the slot is empty; `wide` says
            // whether it was acquired during this call.
            let ghost ipre = inner;
            proof {
                assert(flat_items(seq![ipre] + self.stream.items()) == old(self).items());
                assert(Self::failure_of(seq![ipre] + self.stream.items(), self.stream.failure())
                    == old(self).failure());
            }
            let t_in: &Tokens = if wide {
                &all
            } else {
                tokens
            };
            let rr = inner.poll(t_in);
            proof {
                assert((seq![ipre] + self.stream.items()).drop_first() =~= self.stream.items());
                assert((seq![inner] + self.stream.items()).drop_first() =~= self.stream.items());
                if wide {
                    assert(0 <= acq_idx < old(self).outer().items().len());
                    assert(inner.polls() == (old(self).outer().items()[acq_idx]).polls().push(
                        u64::MAX,
                    ));
                } else {
                    assert(old(self).inner() == Some(ipre));
                }
            }
            match rr {
                PollResult::Pending => {
                    self.next = Some(inner);
                    return PollResult::Pending;
                },
                PollResult::Ready(step) => match step {
                    Some(v) => {
                        self.next = Some(inner);
                        proof {
                            if ipre.failure() is None {
                                assert((ipre.items() + flat_items(self.stream.items()))
                                    .drop_first() =~= ipre.items().drop_first() + flat_items(
                                    self.stream.items(),
                                ));
                            }
                        }
                        return PollResult::Ready(Some(v));
                    },
                    None => {
                        proof {
                            assert(ipre.items() + flat_items(self.stream.items()) =~= flat_items(
                                self.stream.items(),
                            ));
                        }
                        wide = true;
                    },
                },
                PollResult::Failed(e) => {
                    self.next = Some(inner);
                    return PollResult::Failed(e);
                },
            }
        }
    }

    /// Forward the registration to the held inner stream if one is present,
    /// otherwise to the outer stream — whichever is due to be polled next —
    /// so no wakeup is missed.
    fn schedule(&mut self, wake: &WakeHandle)
        ensures
            old(self).inner() matches Some(i) ==> (final(self).inner() matches Some(i2)
                && i2.registrations() == i.registrations().push(wake.spec_id())
                && final(self).outer() == old(self).outer()),
            old(self).inner() is None ==> (final(self).inner() is None
                && final(self).outer().registrations()
                == old(self).outer().registrations().push(wake.spec_id())),
    {
        match &mut self.next {
            Some(i) => {
                let ghost ipre = *i;
                i.schedule(wake);
                proof {
                    assert((seq![ipre] + self.stream.items()).drop_first()
                        =~= self.stream.items());
                    assert((seq![*i] + self.stream.items()).drop_first()
                        =~= self.stream.items());
                    assert(self.stream.registrations() + i.registrations()
                        =~= (self.stream.registrations() + ipre.registrations()).push(
                        wake.spec_id(),
                    ));
                }
            },
            None => {
                self.stream.schedule(wake);
                proof {
                    assert(self.stream.registrations() + Seq::<u64>::empty()
                        =~= self.stream.registrations());
                    assert(old(self).stream.registrations() + Seq::<u64>::empty()
                        =~= old(self).stream.registrations());
                }
            },
        }
    }
}

} // verus!
