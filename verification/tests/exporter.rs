use flex_policy::config::Config;
use flex_policy::export::{classify_export, export_request, ExportOutcome, EXPORT_TIMEOUT_SECS};

#[test]
fn acknowledged_statuses_are_delivered() {
    assert!(matches!(classify_export(Some(200)), ExportOutcome::Delivered));
    assert!(matches!(classify_export(Some(202)), ExportOutcome::Delivered));
    assert!(matches!(classify_export(Some(204)), ExportOutcome::Delivered));
}

#[test]
fn server_error_is_a_soft_failure() {
    // An ingestion endpoint answering 500 is logged as rejected; the caller
    // gets a value back, never an error.
    let outcome = classify_export(Some(500));
    assert!(matches!(outcome, ExportOutcome::Rejected(500)));
}

#[test]
fn other_success_statuses_are_still_rejections() {
    assert!(matches!(classify_export(Some(201)), ExportOutcome::Rejected(201)));
    assert!(matches!(classify_export(Some(404)), ExportOutcome::Rejected(404)));
}

#[test]
fn transport_error_and_timeout_are_one_soft_failure() {
    // A call that exceeds the timeout surfaces as a transport-level error,
    // classified exactly like any other transport failure.
    let outcome = classify_export(None);
    assert!(matches!(outcome, ExportOutcome::TransportFailed));
}

#[test]
fn export_request_carries_endpoint_content_type_and_timeout() {
    let c = Config {
        ingestion_url: b"https://ingest.example/v1".to_vec(),
        sampling_percentage: None,
    };
    let r = export_request(&c, b"{}".to_vec());
    assert_eq!(r.url.as_slice(), b"https://ingest.example/v1");
    assert_eq!(r.content_type.as_slice(), b"application/json");
    assert_eq!(r.body.as_slice(), b"{}");
    assert_eq!(r.timeout_secs, EXPORT_TIMEOUT_SECS);
    assert_eq!(r.timeout_secs, 10);
}
