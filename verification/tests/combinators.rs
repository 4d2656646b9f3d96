use poll_core::{
    FromError, Fuse, FusedFuture, Future, Flatten, IntoFuture, PollResult, Stream, StreamFuture,
    Tokens, WakeHandle,
};

/// A future that replays a script of poll outcomes, counting its polls and
/// recording every wake registration it receives.
struct ScriptFuture {
    script: Vec<PollResult<u64, u64>>,
    polled: usize,
    wakes: Vec<u64>,
}

impl ScriptFuture {
    fn new(script: Vec<PollResult<u64, u64>>) -> ScriptFuture {
        ScriptFuture { script, polled: 0, wakes: Vec::new() }
    }
}

impl Future for ScriptFuture {
    type Item = u64;
    type Error = u64;

    fn poll(&mut self, _tokens: &Tokens) -> PollResult<u64, u64> {
        self.polled += 1;
        self.script.remove(0)
    }

    fn schedule(&mut self, wake: &WakeHandle) {
        self.wakes.push(wake.id());
    }
}

/// A stream that replays a script of poll outcomes, recording the token set
/// of every poll and every wake registration it receives.
struct ScriptStream<T, E> {
    script: Vec<PollResult<Option<T>, E>>,
    tokens_seen: Vec<u64>,
    wakes: Vec<u64>,
}

impl<T, E> ScriptStream<T, E> {
    fn new(script: Vec<PollResult<Option<T>, E>>) -> ScriptStream<T, E> {
        ScriptStream { script, tokens_seen: Vec::new(), wakes: Vec::new() }
    }
}

impl<T, E> Stream for ScriptStream<T, E> {
    type Item = T;
    type Error = E;

    fn poll(&mut self, tokens: &Tokens) -> PollResult<Option<T>, E> {
        self.tokens_seen.push(tokens.bits());
        self.script.remove(0)
    }

    fn schedule(&mut self, wake: &WakeHandle) {
        self.wakes.push(wake.id());
    }
}

#[derive(Debug, PartialEq)]
struct OuterErr(u64);

#[derive(Debug, PartialEq)]
struct InnerErr(u64);

impl FromError<OuterErr> for InnerErr {
    fn from_err(e: OuterErr) -> InnerErr {
        InnerErr(e.0)
    }
}

#[test]
fn tokens_carry_their_bits() {
    assert_eq!(Tokens::new(5).bits(), 5);
    assert_eq!(Tokens::all().bits(), u64::MAX);
    let t = Tokens::new(9);
    let copy = t;
    assert_eq!(copy.bits(), 9);
}

#[test]
fn wake_handles_name_their_target() {
    let w = WakeHandle::new(7);
    assert_eq!(w.id(), 7);
    assert_eq!(w.clone().id(), 7);
}

#[test]
fn fuse_forwards_until_ready() {
    let f = ScriptFuture::new(vec![PollResult::Pending, PollResult::Ready(42)]);
    let mut fuse = Fuse::new(f);
    let t = Tokens::all();
    assert_eq!(fuse.poll(&t), PollResult::Pending);
    assert!(fuse.future.is_some());
    assert_eq!(fuse.poll(&t), PollResult::Ready(42));
    assert!(fuse.future.is_none());
}

#[test]
fn fuse_idempotence_after_ready() {
    let f = ScriptFuture::new(vec![PollResult::Ready(42)]);
    let mut fuse = Fuse::new(f);
    let t = Tokens::all();
    assert_eq!(fuse.poll(&t), PollResult::Ready(42));
    // The wrapped future is dropped with exactly one poll on record; every
    // later poll answers Pending without any future left to consult.
    assert!(fuse.future.is_none());
    assert_eq!(fuse.poll(&t), PollResult::Pending);
    assert_eq!(fuse.poll(&t), PollResult::Pending);
    assert!(fuse.future.is_none());
}

#[test]
fn fuse_idempotence_after_failure() {
    let f = ScriptFuture::new(vec![PollResult::Failed(7)]);
    let mut fuse = Fuse::new(f);
    let t = Tokens::all();
    assert_eq!(fuse.poll(&t), PollResult::Failed(7));
    assert!(fuse.future.is_none());
    assert_eq!(fuse.poll(&t), PollResult::Pending);
    assert_eq!(fuse.poll(&t), PollResult::Pending);
}

#[test]
fn fuse_reports_termination() {
    let f = ScriptFuture::new(vec![PollResult::Pending, PollResult::Ready(2)]);
    let mut fuse = Fuse::new(f);
    let t = Tokens::all();
    assert!(!fuse.is_terminated());
    assert_eq!(fuse.poll(&t), PollResult::Pending);
    assert!(!fuse.is_terminated());
    assert_eq!(fuse.poll(&t), PollResult::Ready(2));
    assert!(fuse.is_terminated());
}

#[test]
fn fuse_forwards_schedule_while_active() {
    let f = ScriptFuture::new(vec![PollResult::Pending]);
    let mut fuse = Fuse::new(f);
    fuse.schedule(&WakeHandle::new(3));
    assert_eq!(fuse.future.as_ref().unwrap().wakes, vec![3]);
}

#[test]
fn fuse_post_completion_schedule_is_a_no_op() {
    let f = ScriptFuture::new(vec![PollResult::Ready(1)]);
    let mut fuse = Fuse::new(f);
    let t = Tokens::all();
    assert_eq!(fuse.poll(&t), PollResult::Ready(1));
    // The wrapped future is gone: the registration reaches nothing and can
    // never trigger the wake.
    fuse.schedule(&WakeHandle::new(4));
    assert!(fuse.future.is_none());
}

fn inner(script: Vec<PollResult<Option<u64>, u64>>) -> ScriptStream<u64, u64> {
    ScriptStream::new(script)
}

#[test]
fn flatten_ordering() {
    let s1 = inner(vec![
        PollResult::Ready(Some(1)),
        PollResult::Ready(Some(2)),
        PollResult::Ready(None),
    ]);
    let s2 = inner(vec![PollResult::Ready(Some(3)), PollResult::Ready(None)]);
    let outer = ScriptStream::new(vec![
        PollResult::Ready(Some(s1)),
        PollResult::Ready(Some(s2)),
        PollResult::Ready(None),
    ]);
    let mut flat = Flatten::new(outer);
    let t = Tokens::new(5);
    assert_eq!(flat.poll(&t), PollResult::Ready(Some(1)));
    assert_eq!(flat.poll(&t), PollResult::Ready(Some(2)));
    assert_eq!(flat.poll(&t), PollResult::Ready(Some(3)));
    assert_eq!(flat.poll(&t), PollResult::Ready(None));
}

#[test]
fn flatten_empty_inner_transparency() {
    let s1 = inner(vec![PollResult::Ready(None)]);
    let s2 = inner(vec![PollResult::Ready(Some(7)), PollResult::Ready(None)]);
    let outer = ScriptStream::new(vec![
        PollResult::Ready(Some(s1)),
        PollResult::Ready(Some(s2)),
        PollResult::Ready(None),
    ]);
    let mut flat = Flatten::new(outer);
    let t = Tokens::new(5);
    assert_eq!(flat.poll(&t), PollResult::Ready(Some(7)));
    assert_eq!(flat.poll(&t), PollResult::Ready(None));
}

#[test]
fn flatten_error_propagation() {
    let s1 = inner(vec![PollResult::Ready(Some(1)), PollResult::Ready(None)]);
    let s2 = inner(vec![PollResult::Ready(Some(2)), PollResult::Failed(9)]);
    let outer = ScriptStream::new(vec![
        PollResult::Ready(Some(s1)),
        PollResult::Ready(Some(s2)),
    ]);
    let mut flat = Flatten::new(outer);
    let t = Tokens::new(5);
    assert_eq!(flat.poll(&t), PollResult::Ready(Some(1)));
    assert_eq!(flat.poll(&t), PollResult::Ready(Some(2)));
    assert_eq!(flat.poll(&t), PollResult::Failed(9));
    // The outer stream was asked for the two inner streams and nothing more:
    // after the failure it is never polled again.
    assert_eq!(flat.stream.tokens_seen.len(), 2);
}

#[test]
fn flatten_converts_outer_errors() {
    let outer: ScriptStream<ScriptStream<u64, InnerErr>, OuterErr> =
        ScriptStream::new(vec![PollResult::Failed(OuterErr(3))]);
    let mut flat = Flatten::new(outer);
    let t = Tokens::new(5);
    assert_eq!(flat.poll(&t), PollResult::Failed(InnerErr(3)));
}

#[test]
fn flatten_pending_inner_is_retained() {
    let s1 = inner(vec![PollResult::Pending, PollResult::Ready(Some(8))]);
    let outer = ScriptStream::new(vec![PollResult::Ready(Some(s1))]);
    let mut flat = Flatten::new(outer);
    let t = Tokens::new(5);
    assert_eq!(flat.poll(&t), PollResult::Pending);
    assert!(flat.next.is_some());
    assert_eq!(flat.poll(&t), PollResult::Ready(Some(8)));
}

#[test]
fn flatten_token_widening() {
    let s1 = inner(vec![PollResult::Ready(Some(4)), PollResult::Pending]);
    let outer = ScriptStream::new(vec![PollResult::Ready(Some(s1))]);
    let mut flat = Flatten::new(outer);
    let t = Tokens::new(5);
    assert_eq!(flat.poll(&t), PollResult::Ready(Some(4)));
    assert_eq!(flat.poll(&t), PollResult::Pending);
    // The outer stream saw the caller's tokens; the freshly acquired inner
    // stream's first poll used the wildcard set, and only the next call's
    // poll — the inner stream now being the one due — used the caller's.
    assert_eq!(flat.stream.tokens_seen, vec![5]);
    assert_eq!(flat.next.as_ref().unwrap().tokens_seen, vec![u64::MAX, 5]);
}

#[test]
fn flatten_forwards_schedule_to_whichever_is_due() {
    let s1 = inner(vec![PollResult::Pending]);
    let outer = ScriptStream::new(vec![PollResult::Ready(Some(s1)), PollResult::Pending]);
    let mut flat = Flatten::new(outer);
    // No inner stream held yet: the outer stream receives the registration.
    flat.schedule(&WakeHandle::new(1));
    assert_eq!(flat.stream.wakes, vec![1]);
    let t = Tokens::new(5);
    assert_eq!(flat.poll(&t), PollResult::Pending);
    // The pending inner stream is now due: it receives the registration.
    flat.schedule(&WakeHandle::new(2));
    assert_eq!(flat.next.as_ref().unwrap().wakes, vec![2]);
    assert_eq!(flat.stream.wakes, vec![1]);
}

#[test]
fn stream_future_yields_item_and_remaining_stream() {
    let s = inner(vec![
        PollResult::Ready(Some(1)),
        PollResult::Ready(Some(2)),
        PollResult::Ready(None),
    ]);
    let mut sf = StreamFuture::new(s);
    let t = Tokens::all();
    match sf.poll(&t) {
        PollResult::Ready((Some(1), mut rest)) => {
            // The single use is over: the slot is empty, and the remaining
            // stream continues where it stopped.
            assert!(sf.stream.is_none());
            assert_eq!(rest.poll(&t), PollResult::Ready(Some(2)));
        },
        _ => panic!("expected the first item and the remaining stream"),
    }
}

#[test]
fn stream_future_yields_end_marker() {
    let s = inner(vec![PollResult::Ready(None)]);
    let mut sf = StreamFuture::new(s);
    match sf.poll(&Tokens::all()) {
        PollResult::Ready((None, _rest)) => assert!(sf.stream.is_none()),
        _ => panic!("expected the end marker"),
    }
}

#[test]
fn stream_future_hands_stream_back_on_failure() {
    let s = inner(vec![PollResult::Failed(5)]);
    let mut sf = StreamFuture::new(s);
    match sf.poll(&Tokens::all()) {
        PollResult::Failed((5, _rest)) => assert!(sf.stream.is_none()),
        _ => panic!("expected the failure and the stream handed back"),
    }
}

#[test]
fn stream_future_retains_stream_while_pending() {
    let s = inner(vec![PollResult::Pending, PollResult::Ready(Some(6))]);
    let mut sf = StreamFuture::new(s);
    let t = Tokens::all();
    match sf.poll(&t) {
        PollResult::Pending => assert!(sf.stream.is_some()),
        _ => panic!("expected a pending result"),
    }
    match sf.poll(&t) {
        PollResult::Ready((Some(6), _rest)) => {},
        _ => panic!("expected the item after the pending poll"),
    }
}

#[test]
fn stream_future_forwards_schedule_while_occupied() {
    let s = inner(vec![PollResult::Pending]);
    let mut sf = StreamFuture::new(s);
    sf.schedule(&WakeHandle::new(8));
    assert_eq!(sf.stream.as_ref().unwrap().wakes, vec![8]);
}

#[test]
fn into_future_translates_success_without_timing_shift() {
    let f = ScriptFuture::new(vec![PollResult::Pending, PollResult::Ready(6)]);
    let mut adapted = IntoFuture::new(f);
    let t = Tokens::all();
    assert_eq!(adapted.poll(&t), PollResult::Pending);
    assert_eq!(adapted.poll(&t), PollResult::Ready(Ok(6)));
    assert_eq!(adapted.future.polled, 2);
}

#[test]
fn into_future_translates_failure_into_the_single_channel() {
    let f = ScriptFuture::new(vec![PollResult::Failed(9)]);
    let mut adapted = IntoFuture::new(f);
    assert_eq!(adapted.poll(&Tokens::all()), PollResult::Ready(Err(9)));
}

#[test]
fn into_future_reports_termination_of_a_fused_future() {
    let f = ScriptFuture::new(vec![PollResult::Ready(3)]);
    let mut adapted = IntoFuture::new(Fuse::new(f));
    let t = Tokens::all();
    assert!(!adapted.is_terminated());
    assert_eq!(adapted.poll(&t), PollResult::Ready(Ok(3)));
    assert!(adapted.is_terminated());
}

#[test]
fn into_future_forwards_schedule() {
    let f = ScriptFuture::new(vec![PollResult::Pending]);
    let mut adapted = IntoFuture::new(f);
    adapted.schedule(&WakeHandle::new(11));
    assert_eq!(adapted.future.wakes, vec![11]);
}
