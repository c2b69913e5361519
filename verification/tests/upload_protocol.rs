use glean::upload::{
    fate_of, PingFate, PingRequest, PingUploadManager, PingUploadTask, UploadResult,
    UPLOAD_RESULT_HTTP_STATUS, UPLOAD_RESULT_RECOVERABLE, UPLOAD_RESULT_UNRECOVERABLE,
};

fn request(id: &str) -> PingRequest {
    PingRequest {
        document_id: String::from(id),
        path: format!("/submit/org-example-app/prototype/1/{}", id),
        body: String::from("{\"ping_info\":{}}"),
        headers: String::from("{\"Content-Type\":\"application/json\"}"),
    }
}

#[test]
fn poll_on_empty_store_returns_done() {
    let mut m = PingUploadManager::new();
    assert_eq!(m.poll_next_task(), PingUploadTask::Done);
    // Still empty: polling again stays Done.
    assert_eq!(m.poll_next_task(), PingUploadTask::Done);
}

#[test]
fn poll_after_enqueue_returns_the_submission() {
    let mut m = PingUploadManager::new();
    assert_eq!(m.poll_next_task(), PingUploadTask::Done);
    m.enqueue_ping(request("doc-1"));
    match m.poll_next_task() {
        PingUploadTask::Upload(req) => {
            assert_eq!(req, request("doc-1"));
        }
        other => panic!("expected Upload, got {:?}", other),
    }
}

#[test]
fn no_second_upload_while_one_is_in_flight() {
    let mut m = PingUploadManager::new();
    m.enqueue_ping(request("doc-1"));
    m.enqueue_ping(request("doc-2"));

    let first = m.poll_next_task();
    assert_eq!(first, PingUploadTask::Upload(request("doc-1")));
    // Until a result for doc-1 is reported, every poll answers Wait: no
    // second Upload is handed out, for doc-1 or any other document.
    assert_eq!(m.poll_next_task(), PingUploadTask::Wait);
    assert_eq!(m.poll_next_task(), PingUploadTask::Wait);

    m.report_result(&String::from("doc-1"), UploadResult::HttpStatus(200));
    assert_eq!(m.poll_next_task(), PingUploadTask::Upload(request("doc-2")));
}

#[test]
fn report_success_removes_the_pending_submission() {
    let mut m = PingUploadManager::new();
    m.enqueue_ping(request("doc-1"));
    assert_eq!(m.poll_next_task(), PingUploadTask::Upload(request("doc-1")));
    m.report_result(&String::from("doc-1"), UploadResult::HttpStatus(200));
    assert_eq!(m.poll_next_task(), PingUploadTask::Done);
}

#[test]
fn report_server_error_keeps_the_submission_pending() {
    let mut m = PingUploadManager::new();
    m.enqueue_ping(request("doc-1"));
    assert_eq!(m.poll_next_task(), PingUploadTask::Upload(request("doc-1")));
    m.report_result(&String::from("doc-1"), UploadResult::HttpStatus(500));
    // Still pending and eligible for a future Upload.
    assert_eq!(m.poll_next_task(), PingUploadTask::Upload(request("doc-1")));
}

#[test]
fn report_client_error_discards_without_retry() {
    let mut m = PingUploadManager::new();
    m.enqueue_ping(request("doc-1"));
    assert_eq!(m.poll_next_task(), PingUploadTask::Upload(request("doc-1")));
    m.report_result(&String::from("doc-1"), UploadResult::HttpStatus(404));
    assert_eq!(m.poll_next_task(), PingUploadTask::Done);
}

#[test]
fn report_for_unknown_document_is_ignored() {
    let mut m = PingUploadManager::new();
    m.enqueue_ping(request("doc-1"));
    assert_eq!(m.poll_next_task(), PingUploadTask::Upload(request("doc-1")));
    // A report for a document that is not in flight changes nothing: doc-1
    // stays in flight, so polling still answers Wait.
    m.report_result(&String::from("doc-2"), UploadResult::HttpStatus(200));
    assert_eq!(m.poll_next_task(), PingUploadTask::Wait);
    m.report_result(&String::from("doc-1"), UploadResult::HttpStatus(200));
    assert_eq!(m.poll_next_task(), PingUploadTask::Done);
}

#[test]
fn retry_policy_maps_results_to_fates() {
    assert_eq!(fate_of(&UploadResult::HttpStatus(200)), PingFate::Remove);
    assert_eq!(fate_of(&UploadResult::HttpStatus(204)), PingFate::Remove);
    assert_eq!(fate_of(&UploadResult::HttpStatus(400)), PingFate::Discard);
    assert_eq!(fate_of(&UploadResult::HttpStatus(404)), PingFate::Discard);
    assert_eq!(fate_of(&UploadResult::HttpStatus(429)), PingFate::Retry);
    assert_eq!(fate_of(&UploadResult::HttpStatus(500)), PingFate::Retry);
    assert_eq!(fate_of(&UploadResult::HttpStatus(503)), PingFate::Retry);
    assert_eq!(fate_of(&UploadResult::RecoverableError), PingFate::Retry);
    assert_eq!(fate_of(&UploadResult::UnrecoverableError), PingFate::Discard);
}

#[test]
fn constants_match_with_glean_core() {
    // The values the glean-core engine documents for its boundary encoding.
    assert_eq!(UPLOAD_RESULT_RECOVERABLE, 0x1);
    assert_eq!(UPLOAD_RESULT_UNRECOVERABLE, 0x2);
    assert_eq!(UPLOAD_RESULT_HTTP_STATUS, 0x8000);
}

#[test]
fn results_encode_into_disjoint_bit_regions() {
    assert_eq!(UploadResult::RecoverableError.to_ffi_value(), 0x1);
    assert_eq!(UploadResult::UnrecoverableError.to_ffi_value(), 0x2);
    assert_eq!(UploadResult::HttpStatus(200).to_ffi_value(), 0x8000 | 200);
    assert_eq!(UploadResult::HttpStatus(200).to_ffi_value(), 0x80C8);
    assert_eq!(UploadResult::HttpStatus(404).to_ffi_value(), 0x8194);
}

#[test]
fn encoded_results_decode_back() {
    for result in [
        UploadResult::RecoverableError,
        UploadResult::UnrecoverableError,
        UploadResult::HttpStatus(200),
        UploadResult::HttpStatus(429),
        UploadResult::HttpStatus(500),
    ] {
        assert_eq!(UploadResult::from_ffi_value(result.to_ffi_value()), Some(result));
    }
    // A value outside the three encodings decodes to nothing.
    assert_eq!(UploadResult::from_ffi_value(0x10), None);
    assert_eq!(UploadResult::from_ffi_value(0), None);
}
