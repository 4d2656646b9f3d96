//! A minimal cooperative asynchronous-computation core.
//!
//! Two capability contracts — a single eventual value ([`Future`]) and an
//! ordered sequence of eventual values ([`Stream`]) — are driven by explicit,
//! non-blocking polling.  A poll returns one of three outcomes
//! ([`PollResult`]): the value is ready, the computation is still pending, or
//! it has failed.  A pending computation registers interest in being revisited
//! through a [`WakeHandle`]; a [`Tokens`] set tells a computation which
//! readiness sources are currently known to be ready.
//!
//! On top of the two contracts stand structural combinators that compose
//! capabilities while preserving their contracts: [`Fuse`] makes a future's
//! terminal behaviour idempotent, [`Flatten`] turns a stream of streams into
//! one flat stream, [`StreamFuture`] turns a stream into a single-use future
//! yielding the next item together with the remaining stream, and
//! [`IntoFuture`] folds a future's success/error split into a single output
//! channel.
//!
//! The driver loop that repeatedly polls, and the reactors that produce
//! readiness notifications, are external collaborators: the core only assumes
//! something calls `poll` and honours `schedule`.

mod capability;
mod flatten;
mod fuse;
mod into_future;
mod poll;
mod stream_future;
mod tokens;
mod wake;

pub use capability::{FromError, FusedFuture, Future, Stream};
pub use flatten::{
    flat_failure, flat_items, lemma_empty_inner_transparent, lemma_flat_items_preserve_order,
    widened_record, Flatten,
};
pub use fuse::Fuse;
pub use into_future::IntoFuture;
pub use poll::PollResult;
pub use stream_future::StreamFuture;
pub use tokens::Tokens;
pub use wake::WakeHandle;
