//! The ownership layer that carries an upload task across the foreign
//! boundary.
//!
//! For the `Upload` case the task owns four independently releasable text
//! buffers. The producing side allocates them and transfers ownership to the
//! consumer, which must hand them back through the single release operation
//! exactly once; a task discarded without transfer (`Wait`, `Done`, or the
//! safe default on conversion failure) owns no buffers and needs no release.
//!
//! Allocation and release are balanced through an explicit ledger, so that
//! "every allocation is matched by exactly one release" is a stated and
//! proved property rather than a convention.

use vstd::prelude::*;

use crate::upload::{PingRequest, PingUploadTask};

verus! {

/// Counts the transferable buffers a boundary handed out and took back.
/// The difference is the number of buffers currently owned by the consumer.
pub struct BufferLedger {
    /// Buffers allocated for transfer so far.
    pub allocated: u64,
    /// Buffers released back so far.
    pub released: u64,
}

/// The number of transferable buffers currently outstanding: allocated and
/// not yet released.
pub open spec fn spec_outstanding(ledger: BufferLedger) -> int {
    ledger.allocated - ledger.released
}

/// The effect of allocating `n` transferable buffers.
pub open spec fn alloc_transition(pre: BufferLedger, post: BufferLedger, n: int) -> bool {
    &&& post.allocated == pre.allocated + n
    &&& post.released == pre.released
}

/// The effect of releasing `n` transferable buffers.
pub open spec fn release_transition(pre: BufferLedger, post: BufferLedger, n: int) -> bool {
    &&& post.allocated == pre.allocated
    &&& post.released == pre.released + n
}

impl BufferLedger {
    /// Well-formedness: nothing is released that was not allocated.
    pub open spec fn wf(&self) -> bool {
        self.released <= self.allocated
    }

    /// A fresh ledger: nothing allocated, nothing outstanding.
    pub fn new() -> (ledger: BufferLedger)
        ensures
            ledger.wf(),
            spec_outstanding(ledger) == 0,
    {
        BufferLedger { allocated: 0, released: 0 }
    }

    /// The number of buffers currently owned by the consumer.
    pub fn outstanding(&self) -> (n: u64)
        requires
            self.wf(),
        ensures
            n == spec_outstanding(*self),
    {
        self.allocated - self.released
    }
}

/// A representation of the upload task fit for the foreign boundary: the
/// `Upload` case owns four transferable buffers, one per field.
#[derive(Debug, PartialEq, Eq)]
pub enum FfiPingUploadTask {
    /// One submission, as four owned buffers the consumer must release.
    Upload {
        /// The unique identifier of the submitted document.
        document_id: String,
        /// The server path the document is submitted to.
        path: String,
        /// The pre-serialized request body.
        body: String,
        /// The pre-serialized request headers.
        headers: String,
    },
    /// Nothing is ready right now; poll again later.
    Wait,
    /// The store is empty; stop polling until woken.
    Done,
}

impl FfiPingUploadTask {
    /// The number of buffers the value owns.
    pub open spec fn spec_buffer_count(&self) -> int {
        if self is Upload {
            4
        } else {
            0
        }
    }

    /// Converts a task for the boundary, allocating the owned buffers of an
    /// `Upload` and recording them in the ledger. The four fields of an
    /// `Upload` carry over unchanged; `Wait` and `Done` own nothing.
    pub fn from_task(task: PingUploadTask, ledger: &mut BufferLedger) -> (r: FfiPingUploadTask)
        requires
            old(ledger).wf(),
            old(ledger).allocated + 4 <= u64::MAX,
        ensures
            final(ledger).wf(),
            alloc_transition(*old(ledger), *final(ledger), r.spec_buffer_count()),
            match task {
                PingUploadTask::Upload(request) => r == (FfiPingUploadTask::Upload {
                    document_id: request.document_id,
                    path: request.path,
                    body: request.body,
                    headers: request.headers,
                }),
                PingUploadTask::Wait => r is Wait,
                PingUploadTask::Done => r is Done,
            },
    {
        match task {
            PingUploadTask::Upload(request) => {
                ledger.allocated = ledger.allocated + 4;
                FfiPingUploadTask::Upload {
                    document_id: request.document_id,
                    path: request.path,
                    body: request.body,
                    headers: request.headers,
                }
            },
            PingUploadTask::Wait => FfiPingUploadTask::Wait,
            PingUploadTask::Done => FfiPingUploadTask::Done,
        }
    }

    /// The single designated release operation: consumes the task and hands
    /// its buffers back to the ledger, exactly once, since the task is gone
    /// afterwards. Releasing `Wait` or `Done` hands back nothing.
    pub fn release(self, ledger: &mut BufferLedger)
        requires
            old(ledger).wf(),
            old(ledger).released + self.spec_buffer_count() <= old(ledger).allocated,
        ensures
            final(ledger).wf(),
            release_transition(*old(ledger), *final(ledger), self.spec_buffer_count()),
    {
        match self {
            FfiPingUploadTask::Upload { .. } => {
                ledger.released = ledger.released + 4;
            },
            _ => {},
        }
    }

    /// The safe default handed across the boundary on conversion failure:
    /// the terminal `Done`, which owns no buffers, so nothing leaks and
    /// nothing needs releasing.
    pub fn ffi_default() -> (r: FfiPingUploadTask)
        ensures
            r is Done,
            r.spec_buffer_count() == 0,
    {
        FfiPingUploadTask::Done
    }

    /// The value laid out for the boundary is the task itself.
    pub fn into_ffi_value(self) -> (r: FfiPingUploadTask)
        ensures
            r == self,
    {
        self
    }
}

/// Building a boundary task and releasing it leaves no unreleased buffer:
/// on a ledger with nothing outstanding, the conversion allocates exactly
/// the buffers the task owns, the release hands exactly those back, and the
/// ledger is balanced again. Together with the conversion's field equality,
/// a round trip that reads the four fields of an `Upload` back loses
/// nothing and leaks nothing.
pub proof fn lemma_transfer_round_trip_is_leak_free(
    start: BufferLedger,
    mid: BufferLedger,
    end: BufferLedger,
    task: FfiPingUploadTask,
)
    requires
        spec_outstanding(start) == 0,
        alloc_transition(start, mid, task.spec_buffer_count()),
        release_transition(mid, end, task.spec_buffer_count()),
    ensures
        spec_outstanding(mid) == task.spec_buffer_count(),
        spec_outstanding(end) == 0,
{
}

} // verus!
