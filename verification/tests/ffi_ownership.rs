use glean::ffi::{BufferLedger, FfiPingUploadTask};
use glean::upload::{PingRequest, PingUploadTask};

fn request() -> PingRequest {
    PingRequest {
        document_id: String::from("doc-9"),
        path: String::from("/submit/org-example-app/baseline/1/doc-9"),
        body: String::from("{\"metrics\":{}}"),
        headers: String::from("{\"X-Client\":\"test\"}"),
    }
}

#[test]
fn upload_round_trip_leaves_no_unreleased_buffer() {
    let mut ledger = BufferLedger::new();
    assert_eq!(ledger.outstanding(), 0);

    // Constructing an Upload task allocates its four buffers.
    let task = FfiPingUploadTask::from_task(PingUploadTask::Upload(request()), &mut ledger);
    assert_eq!(ledger.outstanding(), 4);

    // Reading back its four fields gives the request's values.
    match &task {
        FfiPingUploadTask::Upload {
            document_id,
            path,
            body,
            headers,
        } => {
            assert_eq!(document_id, "doc-9");
            assert_eq!(path, "/submit/org-example-app/baseline/1/doc-9");
            assert_eq!(body, "{\"metrics\":{}}");
            assert_eq!(headers, "{\"X-Client\":\"test\"}");
        }
        other => panic!("expected Upload, got {:?}", other),
    }

    // Releasing it balances the ledger: each allocation is matched by
    // exactly one release.
    task.release(&mut ledger);
    assert_eq!(ledger.outstanding(), 0);
}

#[test]
fn wait_and_done_own_no_buffers() {
    let mut ledger = BufferLedger::new();
    let wait = FfiPingUploadTask::from_task(PingUploadTask::Wait, &mut ledger);
    assert_eq!(wait, FfiPingUploadTask::Wait);
    assert_eq!(ledger.outstanding(), 0);

    let done = FfiPingUploadTask::from_task(PingUploadTask::Done, &mut ledger);
    assert_eq!(done, FfiPingUploadTask::Done);
    assert_eq!(ledger.outstanding(), 0);

    // Releasing them hands back nothing and nothing goes negative.
    wait.release(&mut ledger);
    done.release(&mut ledger);
    assert_eq!(ledger.outstanding(), 0);
}

#[test]
fn conversion_failure_default_is_done_and_needs_no_release() {
    let task = FfiPingUploadTask::ffi_default();
    assert_eq!(task, FfiPingUploadTask::Done);
    let mut ledger = BufferLedger::new();
    task.release(&mut ledger);
    assert_eq!(ledger.outstanding(), 0);
}

#[test]
fn into_ffi_value_is_the_task_itself() {
    let mut ledger = BufferLedger::new();
    let task = FfiPingUploadTask::from_task(PingUploadTask::Upload(request()), &mut ledger);
    let value = task.into_ffi_value();
    match &value {
        FfiPingUploadTask::Upload { document_id, .. } => assert_eq!(document_id, "doc-9"),
        other => panic!("expected Upload, got {:?}", other),
    }
    value.release(&mut ledger);
    assert_eq!(ledger.outstanding(), 0);
}
