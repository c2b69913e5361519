//! The pull-based upload task protocol.
//!
//! An uploader repeatedly polls for the next unit of work and gets one of
//! three task kinds: `Upload` (one submission is ready), `Wait` (nothing is
//! ready right now, back off and poll again) or `Done` (the store is empty,
//! stop polling until woken). For each `Upload` the uploader performs the
//! transfer and reports exactly one result, which decides whether the
//! submission is removed, discarded or kept for retry.
//!
//! The protocol is half-duplex per task: while one `Upload` is outstanding,
//! polling yields `Wait`, so no two `Upload` tasks for the same document are
//! ever in flight at once.

use vstd::prelude::*;

verus! {

/// A recoverable upload error, encoded for the foreign boundary.
pub const UPLOAD_RESULT_RECOVERABLE: u32 = 0x1;

/// An unrecoverable upload error, encoded for the foreign boundary.
pub const UPLOAD_RESULT_UNRECOVERABLE: u32 = 0x2;

/// An HTTP response code, encoded for the foreign boundary. The actual
/// response code is packed in the lower bits.
pub const UPLOAD_RESULT_HTTP_STATUS: u32 = 0x8000;

/// One pending telemetry submission: the transfer described by `path`,
/// `body` and `headers`, identified by `document_id`. Body and headers are
/// pre-serialized text.
#[derive(Debug, PartialEq, Eq)]
pub struct PingRequest {
    /// The unique identifier of the submitted document.
    pub document_id: String,
    /// The server path the document is submitted to.
    pub path: String,
    /// The pre-serialized request body.
    pub body: String,
    /// The pre-serialized request headers.
    pub headers: String,
}

impl Clone for PingRequest {
    /// An exact copy: the clone carries the same four fields.
    fn clone(&self) -> (r: Self)
        ensures
            r == *self,
    {
        PingRequest {
            document_id: self.document_id.clone(),
            path: self.path.clone(),
            body: self.body.clone(),
            headers: self.headers.clone(),
        }
    }
}

/// One answer to a poll of the upload protocol.
#[derive(Debug, PartialEq, Eq)]
pub enum PingUploadTask {
    /// Exactly one submission is ready; perform it and report a result for
    /// its document before polling again.
    Upload(PingRequest),
    /// No submission is ready right now, but one may become ready shortly:
    /// back off and poll again later.
    Wait,
    /// The pending store is empty: stop polling until externally notified.
    Done,
}

/// The outcome of one attempted upload, as the uploader reports it back.
#[derive(Clone, Copy, Debug, PartialEq, Eq)]
pub enum UploadResult {
    /// The HTTP status code the server answered with.
    HttpStatus(u32),
    /// The attempt failed in a way worth retrying (e.g. the network was
    /// down).
    RecoverableError,
    /// The attempt can never succeed (e.g. the request was malformed).
    UnrecoverableError,
}

/// What the pending store does with a submission after its result is
/// reported.
#[derive(Clone, Copy, PartialEq, Eq, Structural, Debug)]
pub enum PingFate {
    /// The submission was accepted by the server: remove it.
    Remove,
    /// The submission can never succeed: discard it without retry.
    Discard,
    /// The attempt may succeed later: keep the submission pending.
    Retry,
}

/// The retry policy: a 2xx status removes the submission, a 4xx status
/// (other than 429) or an unrecoverable error discards it, and 429, 5xx or
/// a recoverable error keeps it pending for a later attempt. Any other
/// status is treated as unrecoverable.
pub open spec fn spec_fate(result: UploadResult) -> PingFate {
    match result {
        UploadResult::HttpStatus(code) => if 200 <= code < 300 {
            PingFate::Remove
        } else if code == 429 {
            PingFate::Retry
        } else if 500 <= code < 600 {
            PingFate::Retry
        } else {
            PingFate::Discard
        },
        UploadResult::RecoverableError => PingFate::Retry,
        UploadResult::UnrecoverableError => PingFate::Discard,
    }
}

/// Applies the retry policy to one reported result.
pub fn fate_of(result: &UploadResult) -> (f: PingFate)
    ensures
        f == spec_fate(*result),
{
    match result {
        UploadResult::HttpStatus(code) => {
            let c = *code;
            if 200 <= c && c < 300 {
                PingFate::Remove
            } else if c == 429 {
                PingFate::Retry
            } else if 500 <= c && c < 600 {
                PingFate::Retry
            } else {
                PingFate::Discard
            }
        },
        UploadResult::RecoverableError => PingFate::Retry,
        UploadResult::UnrecoverableError => PingFate::Discard,
    }
}

/// The value a result crosses the foreign boundary as: one scalar with
/// three disjoint bit-regions.
pub open spec fn spec_ffi_value(result: UploadResult) -> u32 {
    match result {
        UploadResult::RecoverableError => UPLOAD_RESULT_RECOVERABLE,
        UploadResult::UnrecoverableError => UPLOAD_RESULT_UNRECOVERABLE,
        UploadResult::HttpStatus(code) => UPLOAD_RESULT_HTTP_STATUS | code,
    }
}

/// A result representable in the boundary encoding: a status code must fit
/// in the low bits under the status marker.
pub open spec fn spec_result_encodable(result: UploadResult) -> bool {
    result matches UploadResult::HttpStatus(code) ==> code < UPLOAD_RESULT_HTTP_STATUS
}

impl UploadResult {
    /// Encodes the result as a single scalar for the foreign boundary.
    pub fn to_ffi_value(&self) -> (v: u32)
        requires
            spec_result_encodable(*self),
        ensures
            v == spec_ffi_value(*self),
    {
        match self {
            UploadResult::RecoverableError => UPLOAD_RESULT_RECOVERABLE,
            UploadResult::UnrecoverableError => UPLOAD_RESULT_UNRECOVERABLE,
            UploadResult::HttpStatus(code) => UPLOAD_RESULT_HTTP_STATUS | *code,
        }
    }

    /// Decodes a scalar from the foreign boundary. Returns `None` for a
    /// value outside the three encodings.
    pub fn from_ffi_value(v: u32) -> (r: Option<UploadResult>)
        ensures
            v == UPLOAD_RESULT_RECOVERABLE ==> r == Some(UploadResult::RecoverableError),
            v == UPLOAD_RESULT_UNRECOVERABLE ==> r == Some(UploadResult::UnrecoverableError),
            v != UPLOAD_RESULT_RECOVERABLE && v != UPLOAD_RESULT_UNRECOVERABLE && v
                & UPLOAD_RESULT_HTTP_STATUS != 0 ==> r == Some(
                UploadResult::HttpStatus(v & 0x7FFF),
            ),
            v != UPLOAD_RESULT_RECOVERABLE && v != UPLOAD_RESULT_UNRECOVERABLE && v
                & UPLOAD_RESULT_HTTP_STATUS == 0 ==> r is None,
    {
        if v == UPLOAD_RESULT_RECOVERABLE {
            Some(UploadResult::RecoverableError)
        } else if v == UPLOAD_RESULT_UNRECOVERABLE {
            Some(UploadResult::UnrecoverableError)
        } else if v & UPLOAD_RESULT_HTTP_STATUS != 0 {
            Some(UploadResult::HttpStatus(v & 0x7FFF))
        } else {
            None
        }
    }
}

/// An encodable result survives the boundary: decoding its encoding gives
/// the result back.
pub proof fn lemma_ffi_value_round_trip(result: UploadResult)
    requires
        spec_result_encodable(result),
    ensures
        match result {
            UploadResult::HttpStatus(code) => {
                &&& spec_ffi_value(result) != UPLOAD_RESULT_RECOVERABLE
                &&& spec_ffi_value(result) != UPLOAD_RESULT_UNRECOVERABLE
                &&& spec_ffi_value(result) & UPLOAD_RESULT_HTTP_STATUS != 0
                &&& spec_ffi_value(result) & 0x7FFF == code
            },
            UploadResult::RecoverableError => spec_ffi_value(result) == UPLOAD_RESULT_RECOVERABLE,
            UploadResult::UnrecoverableError => spec_ffi_value(result)
                == UPLOAD_RESULT_UNRECOVERABLE,
        },
{
    match result {
        UploadResult::HttpStatus(code) => {
            assert(code < 0x8000 ==> {
                &&& (0x8000u32 | code) != 0x1
                &&& (0x8000u32 | code) != 0x2
                &&& (0x8000u32 | code) & 0x8000 != 0
                &&& (0x8000u32 | code) & 0x7FFF == code
            }) by (bit_vector);
        },
        _ => {},
    }
}

/// The pending store of the upload protocol: the submissions waiting to be
/// uploaded, in arrival order, plus the document currently handed out to
/// the uploader, if any.
pub struct PingUploadManager {
    /// Pending submissions, front first. The front submission is the one
    /// handed out while a task is in flight; a submission leaves the store
    /// only through a reported result.
    pub pending: Vec<PingRequest>,
    /// The document identifier of the one outstanding `Upload` task, if a
    /// task is in flight.
    pub in_flight: Option<String>,
}

impl PingUploadManager {
    /// Well-formedness: an in-flight document is the front pending
    /// submission.
    pub open spec fn wf(&self) -> bool {
        self.in_flight matches Some(id) ==> {
            &&& self.pending@.len() > 0
            &&& self.pending@[0].document_id@ == id@
        }
    }

    /// An empty store with no task in flight.
    pub fn new() -> (m: PingUploadManager)
        ensures
            m.wf(),
            m.pending@.len() == 0,
            m.in_flight is None,
    {
        PingUploadManager { pending: Vec::new(), in_flight: None }
    }

    /// Adds one submission at the back of the pending store. The store does
    /// not reorder submissions and an in-flight task stays in flight.
    pub fn enqueue_ping(&mut self, request: PingRequest)
        requires
            old(self).wf(),
        ensures
            final(self).wf(),
            final(self).pending@ == old(self).pending@.push(request),
            final(self).in_flight == old(self).in_flight,
    {
        self.pending.push(request);
    }

    /// Pulls the next unit of work. While a task is in flight the answer is
    /// `Wait`; on an empty store it is `Done`; otherwise the front pending
    /// submission is handed out and marked in flight.
    pub fn poll_next_task(&mut self) -> (task: PingUploadTask)
        requires
            old(self).wf(),
        ensures
            final(self).wf(),
            poll_transition(*old(self), *final(self), task),
    {
        if self.in_flight.is_some() {
            return PingUploadTask::Wait;
        }
        if self.pending.len() == 0 {
            return PingUploadTask::Done;
        }
        let request = self.pending[0].clone();
        self.in_flight = Some(request.document_id.clone());
        PingUploadTask::Upload(request)
    }

    /// Takes the reported result for the in-flight document. On `Remove` or
    /// `Discard` the submission leaves the store; on `Retry` it stays
    /// pending and becomes eligible for a future `Upload`. A report for a
    /// document that is not in flight is ignored.
    pub fn report_result(&mut self, document_id: &String, result: UploadResult)
        requires
            old(self).wf(),
        ensures
            final(self).wf(),
            report_transition(*old(self), *final(self), document_id@, result),
    {
        let matched = match &self.in_flight {
            Some(id) => id.eq(document_id),
            None => false,
        };
        if !matched {
            return ;
        }
        self.in_flight = None;
        let fate = fate_of(&result);
        if fate == PingFate::Remove || fate == PingFate::Discard {
            self.pending.remove(0);
        }
    }
}

/// The effect of one `poll_next_task` call.
pub open spec fn poll_transition(
    pre: PingUploadManager,
    post: PingUploadManager,
    task: PingUploadTask,
) -> bool {
    if pre.in_flight is Some {
        &&& post == pre
        &&& task is Wait
    } else if pre.pending@.len() == 0 {
        &&& post == pre
        &&& task is Done
    } else {
        &&& task == PingUploadTask::Upload(pre.pending@[0])
        &&& post.pending@ == pre.pending@
        &&& post.in_flight == Some(pre.pending@[0].document_id)
    }
}

/// The effect of one `report_result` call for document `id`.
pub open spec fn report_transition(
    pre: PingUploadManager,
    post: PingUploadManager,
    id: Seq<char>,
    result: UploadResult,
) -> bool {
    if pre.in_flight matches Some(cur) && cur@ == id {
        &&& post.in_flight is None
        &&& if spec_fate(result) == PingFate::Retry {
            post.pending@ == pre.pending@
        } else {
            post.pending@ == pre.pending@.remove(0)
        }
    } else {
        post == pre
    }
}

/// While an `Upload` task is outstanding, no second `Upload` is handed out:
/// a poll right after a poll that returned `Upload` answers `Wait` and
/// leaves the store untouched, until a result for the in-flight document is
/// reported.
pub proof fn lemma_no_second_upload_while_in_flight(
    pre: PingUploadManager,
    mid: PingUploadManager,
    post: PingUploadManager,
    first: PingUploadTask,
    second: PingUploadTask,
)
    requires
        poll_transition(pre, mid, first),
        first is Upload,
        poll_transition(mid, post, second),
    ensures
        second is Wait,
        post == mid,
{
}

/// A serialized run of `poll_next_task` calls: `states[i]` is the store
/// before call `i`, `tasks[i]` that call's answer.
pub open spec fn poll_chain(states: Seq<PingUploadManager>, tasks: Seq<PingUploadTask>) -> bool {
    &&& states.len() == tasks.len() + 1
    &&& forall|i: int| 0 <= i < tasks.len() ==> poll_transition(states[i], states[i + 1], tasks[i])
}

/// While a document is in flight, any number of polls hands out only
/// `Wait` and leaves the store exactly as it is: no `Upload` for that
/// document — or any other — reappears without an intervening report.
pub proof fn lemma_polls_while_in_flight_all_wait(
    states: Seq<PingUploadManager>,
    tasks: Seq<PingUploadTask>,
)
    requires
        poll_chain(states, tasks),
        states[0].in_flight is Some,
    ensures
        forall|i: int| 0 <= i < tasks.len() ==> (#[trigger] tasks[i]) is Wait,
        forall|i: int| 0 <= i < states.len() ==> #[trigger] states[i] == states[0],
    decreases tasks.len(),
{
    if tasks.len() > 0 {
        assert(poll_transition(states[0], states[1], tasks[0]));
        let suffix_states = states.drop_first();
        let suffix_tasks = tasks.drop_first();
        assert forall|i: int|
            0 <= i < suffix_tasks.len() implies poll_transition(
            suffix_states[i],
            suffix_states[i + 1],
            suffix_tasks[i],
        ) by {
            assert(poll_transition(states[i + 1], states[i + 2], tasks[i + 1]));
        }
        lemma_polls_while_in_flight_all_wait(suffix_states, suffix_tasks);
        assert forall|i: int| 0 <= i < states.len() implies #[trigger] states[i] == states[0] by {
            if i > 0 {
                assert(states[i] == suffix_states[i - 1]);
            }
        }
        assert forall|i: int| 0 <= i < tasks.len() implies (#[trigger] tasks[i]) is Wait by {
            if i > 0 {
                assert(tasks[i] == suffix_tasks[i - 1]);
            }
        }
    }
}

/// A successful or unrecoverable report frees the protocol for the next
/// document: after `Upload` of the front submission and a report that
/// removes or discards it, the next poll hands out the next pending
/// submission (or reports the store empty), never the reported document
/// again.
pub proof fn lemma_report_releases_protocol(
    pre: PingUploadManager,
    mid: PingUploadManager,
    post: PingUploadManager,
    task: PingUploadTask,
    result: UploadResult,
)
    requires
        pre.wf(),
        poll_transition(pre, mid, task),
        task matches PingUploadTask::Upload(request),
        report_transition(mid, post, (task->Upload_0).document_id@, result),
        spec_fate(result) != PingFate::Retry,
    ensures
        post.in_flight is None,
        post.pending@ == pre.pending@.remove(0),
{
}

} // verus!
