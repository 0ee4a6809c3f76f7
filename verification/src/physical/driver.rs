//! The decisions of the driver that runs a chain: what to do with what the
//! source and the sink answer. The driver itself, which waits on sources
//! and sinks, lives with the caller; it performs each action and comes back
//! with the next answer.

use crate::batch::{Batch, BatchView};
use crate::error::{ErrorView, RayexecError};
use crate::physical::chain::{operator_views, operators_outcome, OperatorChain};
use crate::physical::plans::PhysicalSource;
use vstd::prelude::*;

verus! {

/// What a source answers when asked for a batch.
#[derive(Debug)]
pub enum PollPull {
    /// The next batch.
    Batch(Batch),
    /// No batch yet; the source will signal when it is ready.
    Pending,
    /// The source has no more batches.
    Exhausted,
}

/// What a sink answers to a pushed batch. The sink has taken the batch in
/// every case.
#[derive(Debug, Clone, Copy, PartialEq, Eq, Structural)]
pub enum PollPush {
    /// The sink can take more.
    Ready,
    /// The sink is waiting on outside work.
    Pending,
    /// The sink has no room until it advances.
    Full,
}

/// What the driver does next.
#[derive(Debug)]
pub enum ChainAction {
    /// Ask the source for a batch.
    Pull,
    /// Push the batch to the sink.
    Push(Batch),
    /// Park the chain until the source signals readiness, then pull.
    ParkOnSource,
    /// Park the chain until the sink advances, then pull.
    ParkOnSink,
    /// The chain is done: its source has no more batches. The sink is
    /// told that no more batches come once every chain that feeds it is
    /// done.
    Finish,
    /// Hand the error to the sink so that it can release what it holds; the
    /// chain is done and the query fails with the error.
    Abort(RayexecError),
    /// Stop without a result and without an error; a batch in flight is
    /// dropped.
    Cancel,
}

/// What an action holds, as plain values.
pub ghost enum ChainActionView {
    Pull,
    Push(BatchView),
    ParkOnSource,
    ParkOnSink,
    Finish,
    Abort(ErrorView),
    Cancel,
}

impl View for ChainAction {
    type V = ChainActionView;

    open spec fn view(&self) -> ChainActionView {
        match *self {
            ChainAction::Pull => ChainActionView::Pull,
            ChainAction::Push(b) => ChainActionView::Push(b@),
            ChainAction::ParkOnSource => ChainActionView::ParkOnSource,
            ChainAction::ParkOnSink => ChainActionView::ParkOnSink,
            ChainAction::Finish => ChainActionView::Finish,
            ChainAction::Abort(e) => ChainActionView::Abort(e@),
            ChainAction::Cancel => ChainActionView::Cancel,
        }
    }
}

/// What a pulled answer holds, as plain values.
pub ghost enum PollPullView {
    Batch(BatchView),
    Pending,
    Exhausted,
}

impl View for PollPull {
    type V = PollPullView;

    open spec fn view(&self) -> PollPullView {
        match *self {
            PollPull::Batch(b) => PollPullView::Batch(b@),
            PollPull::Pending => PollPullView::Pending,
            PollPull::Exhausted => PollPullView::Exhausted,
        }
    }
}

/// The action that follows an answer of the source.
///
/// A cancelled chain stops, whatever the source answered. A batch goes
/// through the operators in order and is pushed to the sink; an operator's
/// error, which has a message and no source, aborts the chain. A pending
/// source parks the chain. An exhausted source finishes the chain.
pub open spec fn action_after_pull(
    chain: OperatorChain,
    pulled: PollPullView,
    cancelled: bool,
) -> ChainActionView {
    if cancelled {
        ChainActionView::Cancel
    } else {
        match pulled {
            PollPullView::Batch(batch) => match operators_outcome(
                operator_views(chain.operators@),
                batch,
                chain.operators@.len(),
            ) {
                Ok(out) => ChainActionView::Push(out),
                Err(msg) => ChainActionView::Abort(ErrorView { msg, source: None }),
            },
            PollPullView::Pending => ChainActionView::ParkOnSource,
            PollPullView::Exhausted => ChainActionView::Finish,
        }
    }
}

/// The action that follows an answer of the sink: a cancelled chain stops,
/// a ready sink lets the chain pull again, and any other answer parks the
/// chain until the sink advances.
pub open spec fn action_after_push(pushed: PollPush, cancelled: bool) -> ChainActionView {
    if cancelled {
        ChainActionView::Cancel
    } else {
        match pushed {
            PollPush::Ready => ChainActionView::Pull,
            PollPush::Pending => ChainActionView::ParkOnSink,
            PollPush::Full => ChainActionView::ParkOnSink,
        }
    }
}

impl OperatorChain {
    /// The first action of a chain: pull, unless the chain is cancelled.
    pub fn start(&self, cancelled: bool) -> (action: ChainAction)
        ensures
            action@ == (if cancelled {
                ChainActionView::Cancel
            } else {
                ChainActionView::Pull
            }),
    {
        if cancelled {
            ChainAction::Cancel
        } else {
            ChainAction::Pull
        }
    }

    /// Decides what follows an answer of the source, as
    /// `action_after_pull` states.
    pub fn on_pulled(&self, pulled: PollPull, cancelled: bool) -> (action: ChainAction)
        ensures
            action@ == action_after_pull(*self, pulled@, cancelled),
    {
        if cancelled {
            return ChainAction::Cancel;
        }
        match pulled {
            PollPull::Batch(batch) => match self.push_through(batch) {
                Ok(out) => ChainAction::Push(out),
                Err(e) => ChainAction::Abort(e),
            },
            PollPull::Pending => ChainAction::ParkOnSource,
            PollPull::Exhausted => ChainAction::Finish,
        }
    }

    /// Decides what follows an answer of the sink, as `action_after_push`
    /// states.
    pub fn on_pushed(&self, pushed: PollPush, cancelled: bool) -> (action: ChainAction)
        ensures
            action@ == action_after_push(pushed, cancelled),
    {
        if cancelled {
            return ChainAction::Cancel;
        }
        match pushed {
            PollPush::Ready => ChainAction::Pull,
            PollPush::Pending => ChainAction::ParkOnSink,
            PollPush::Full => ChainAction::ParkOnSink,
        }
    }
}

/// Whether a source is the values source of a batch after the batch was
/// handed out.
pub open spec fn values_handed_out(source: PhysicalSource, batch: Batch) -> bool {
    source matches PhysicalSource::Values(v) && v.exhausted && v.batch == batch
}

impl PhysicalSource {
    /// Asks a source that the library holds for its next batch. The empty
    /// source is exhausted at once. A values source hands out its batch
    /// once and is exhausted after that. A table scan is read by the
    /// table's provider: the answer is `None` and the source is unchanged.
    pub fn poll_pull(&mut self) -> (r: Option<PollPull>)
        ensures
            match *old(self) {
                PhysicalSource::Empty(_) => r matches Some(p) && p@ == PollPullView::Exhausted
                    && *final(self) == *old(self),
                PhysicalSource::Values(v) => if v.exhausted {
                    r matches Some(p) && p@ == PollPullView::Exhausted && *final(self) == *old(self)
                } else {
                    r matches Some(p) && p@ == PollPullView::Batch(v.batch@) && values_handed_out(
                        *final(self),
                        v.batch,
                    )
                },
                PhysicalSource::TableScan(_) => r is None && *final(self) == *old(self),
            },
    {
        match self {
            PhysicalSource::Empty(_) => Some(PollPull::Exhausted),
            PhysicalSource::Values(values) => {
                if values.exhausted {
                    Some(PollPull::Exhausted)
                } else {
                    values.exhausted = true;
                    Some(PollPull::Batch(values.batch.clone()))
                }
            },
            PhysicalSource::TableScan(_) => None,
        }
    }
}

} // verus!
