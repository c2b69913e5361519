//! The pre-init queue: a single-consumer task queue.
//!
//! Every public mutating operation issued before initialization completes is
//! buffered here, then drained in arrival order. After the drain the queue
//! switches to passthrough: each newly launched operation is handed straight
//! back to the single consumer for immediate execution, so "exactly one
//! operation runs against shared state at a time" holds in both phases.
//!
//! The dispatcher only decides; it does not execute. `launch` either buffers
//! the operation or hands it back for immediate execution, and `flush_init`
//! returns the buffered operations in launch order for the single consumer
//! to run. Correctness of shared-state mutation follows from this total
//! ordering of operations, not from lock scope.

use vstd::prelude::*;

use crate::private::PingType;
use crate::ProtocolMisuseError;

verus! {

/// A deferred unit of work: one public mutating call, captured with its
/// arguments. Operations have no identity beyond their position in the
/// queue and cannot be cancelled once launched.
#[derive(Debug, PartialEq, Eq)]
pub enum Operation {
    /// Toggle upload on the metrics engine (and restore application-lifetime
    /// metrics when upload is re-enabled).
    SetUploadEnabled(bool),
    /// Register a ping type with the metrics engine.
    RegisterPingType(PingType),
    /// Collect and enqueue a ping for eventual uploading.
    SubmitPingByName {
        /// The name the ping was registered under.
        name: String,
        /// An optional reason string recorded with the submission.
        reason: Option<String>,
    },
}

/// What `launch` decided for one operation.
#[derive(Debug, PartialEq, Eq)]
pub enum LaunchOutcome {
    /// The operation was appended to the buffer; it runs when the queue is
    /// drained.
    Queued,
    /// The queue is already flushed: the operation is handed back to the
    /// single consumer to run immediately.
    RunNow(Operation),
}

/// The pre-init queue. `flushed` is false while buffering, true once
/// `flush_init` has drained the buffer and switched to passthrough.
pub struct Dispatcher {
    flushed: bool,
    queue: Vec<Operation>,
}

/// The effect of one `launch` call. Before the flush the operation is
/// appended to the buffer; after it, the state is untouched and the
/// operation comes straight back for immediate execution.
pub open spec fn launch_transition(
    pre: Dispatcher,
    post: Dispatcher,
    op: Operation,
    r: LaunchOutcome,
) -> bool {
    if pre.spec_flushed() {
        &&& post == pre
        &&& r == LaunchOutcome::RunNow(op)
    } else {
        &&& !post.spec_flushed()
        &&& post.queued() == pre.queued().push(op)
        &&& r is Queued
    }
}

/// The effect of one `flush_init` call. The first call drains the buffer,
/// in launch order, and switches to passthrough; any later call is a
/// protocol misuse and changes nothing.
pub open spec fn flush_transition(
    pre: Dispatcher,
    post: Dispatcher,
    r: Result<Vec<Operation>, ProtocolMisuseError>,
) -> bool {
    if pre.spec_flushed() {
        &&& post == pre
        &&& r == Result::<Vec<Operation>, ProtocolMisuseError>::Err(
            ProtocolMisuseError::DoubleFlush,
        )
    } else {
        &&& post.spec_flushed()
        &&& post.queued().len() == 0
        &&& (r matches Ok(drained) && drained@ == pre.queued())
    }
}

impl Dispatcher {
    /// Whether `flush_init` has already drained the buffer.
    pub closed spec fn spec_flushed(&self) -> bool {
        self.flushed
    }

    /// The operations buffered so far, in launch order.
    pub closed spec fn queued(&self) -> Seq<Operation> {
        self.queue@
    }

    /// A fresh dispatcher: buffering, with an empty queue.
    pub fn new() -> (d: Dispatcher)
        ensures
            !d.spec_flushed(),
            d.queued().len() == 0,
    {
        Dispatcher { flushed: false, queue: Vec::new() }
    }

    /// Whether the pre-init buffer has been drained.
    pub fn is_flushed(&self) -> (r: bool)
        ensures
            r == self.spec_flushed(),
    {
        self.flushed
    }

    /// Submits a deferred operation for eventual, at-most-once, in-order
    /// execution. Never blocks beyond the cost of appending to the queue:
    /// before the flush the operation is buffered; after it, the operation
    /// is handed back for immediate execution by the single consumer.
    pub fn launch(&mut self, op: Operation) -> (r: LaunchOutcome)
        ensures
            launch_transition(*old(self), *final(self), op, r),
    {
        if self.flushed {
            LaunchOutcome::RunNow(op)
        } else {
            self.queue.push(op);
            LaunchOutcome::Queued
        }
    }

    /// Signals that initialization has completed. Drains the buffered
    /// operations, strictly in launch order, and switches the queue to
    /// passthrough. A second call reports a misuse and leaves the queue
    /// untouched.
    pub fn flush_init(&mut self) -> (r: Result<Vec<Operation>, ProtocolMisuseError>)
        ensures
            flush_transition(*old(self), *final(self), r),
    {
        if self.flushed {
            return Err(ProtocolMisuseError::DoubleFlush);
        }
        self.flushed = true;
        let mut drained: Vec<Operation> = Vec::new();
        core::mem::swap(&mut drained, &mut self.queue);
        Ok(drained)
    }
}

/// A serialized run of `launch` calls: `states[i]` is the dispatcher before
/// call `i`, `ops[i]` the operation it launched, `outcomes[i]` its result.
pub open spec fn launch_chain(
    states: Seq<Dispatcher>,
    ops: Seq<Operation>,
    outcomes: Seq<LaunchOutcome>,
) -> bool {
    &&& states.len() == ops.len() + 1
    &&& outcomes.len() == ops.len()
    &&& forall|i: int|
        0 <= i < ops.len() ==> launch_transition(states[i], states[i + 1], ops[i], outcomes[i])
}

/// While the dispatcher is buffering, a run of `launch` calls appends the
/// launched operations to the queue, in launch order, and none of the calls
/// flushes the queue.
pub proof fn lemma_launch_chain_buffers_in_order(
    states: Seq<Dispatcher>,
    ops: Seq<Operation>,
    outcomes: Seq<LaunchOutcome>,
)
    requires
        launch_chain(states, ops, outcomes),
        !states[0].spec_flushed(),
    ensures
        !states.last().spec_flushed(),
        states.last().queued() =~= states[0].queued() + ops,
    decreases ops.len(),
{
    if ops.len() == 0 {
        assert(states.last() == states[0]);
    } else {
        let n = ops.len() - 1;
        lemma_launch_chain_buffers_in_order(
            states.drop_last(),
            ops.drop_last(),
            outcomes.drop_last(),
        );
        assert(launch_transition(states[n], states[n + 1], ops[n], outcomes[n]));
        assert(states.last().queued() =~= states[0].queued() + ops);
    }
}

/// For any run `launch(op1), ..., launch(opN), flush_init()` that starts on
/// a fresh dispatcher, the flush succeeds and drains exactly `op1, ..., opN`:
/// every operation launched before the flush is handed to the single
/// consumer exactly once, in launch order.
pub proof fn lemma_flush_drains_launches_in_order(
    states: Seq<Dispatcher>,
    ops: Seq<Operation>,
    outcomes: Seq<LaunchOutcome>,
    end: Dispatcher,
    r: Result<Vec<Operation>, ProtocolMisuseError>,
)
    requires
        launch_chain(states, ops, outcomes),
        !states[0].spec_flushed(),
        states[0].queued().len() == 0,
        flush_transition(states.last(), end, r),
    ensures
        r matches Ok(drained) && drained@ =~= ops,
{
    lemma_launch_chain_buffers_in_order(states, ops, outcomes);
    assert(states.last().queued() =~= ops);
}

/// Once the queue is flushed, a launched operation does not wait for
/// anything: it comes straight back for immediate execution and the queue
/// stays as it was.
pub proof fn lemma_launch_after_flush_runs_now(
    pre: Dispatcher,
    post: Dispatcher,
    op: Operation,
    r: LaunchOutcome,
)
    requires
        pre.spec_flushed(),
        launch_transition(pre, post, op, r),
    ensures
        r == LaunchOutcome::RunNow(op),
        post == pre,
{
}

} // verus!
