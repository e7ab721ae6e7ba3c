//! The response-phase pipeline for one transaction: the Sampling Gate first,
//! then — only if it keeps — the Response Capturer, the Batch Builder and the
//! Exporter's serialization, in sequence.

use vstd::prelude::*;

use crate::batch::{
    batch_json, batch_view_of, build_batch, capture_response, now_unix_seconds, serialize_batch,
    BatchView, TransactionOutcome,
};
use crate::capture::{normalized_headers_json, CaptureRecord};
use crate::config::Config;
use crate::export::{export_request, ExportRequest, EXPORT_TIMEOUT_SECS};
use crate::sampling::{draw_percent, keeps, should_sample};
use crate::text::{ascii_seq, lossy_utf8, pairs_view};

verus! {

/// The batch content owed to a capture record joined with raw response data
/// and a timestamp.
pub open spec fn expected_batch(
    record: CaptureRecord,
    resp_pairs: Seq<(Seq<u8>, Seq<u8>)>,
    status_code: u16,
    body: Seq<u8>,
    time: int,
) -> BatchView {
    BatchView {
        path: record.url@,
        request_headers: record.request_headers@,
        response_headers: normalized_headers_json(resp_pairs),
        method: record.method@,
        request_payload: record.request_body@,
        response_payload: lossy_utf8(body),
        time: time,
        status_code: status_code,
    }
}

/// The deterministic response-phase step, given the sampling draw and the
/// timestamp: skips when the request phase yielded no record or the draw
/// exceeds the configured percentage; otherwise captures the response, builds
/// the batch and renders the export request.
pub fn respond_with(
    config: &Config,
    record: Option<CaptureRecord>,
    drawn: u8,
    raw_headers: &Vec<(Vec<u8>, Vec<u8>)>,
    status_code: u16,
    body: &[u8],
    time: i64,
) -> (r: Option<ExportRequest>)
    ensures
        r.is_some() <==> (record.is_some() && keeps(drawn, config.spec_effective_percentage())),
        r.is_some() ==> r.unwrap().body@ == batch_json(
            expected_batch(record.unwrap(), pairs_view(raw_headers@), status_code, body@,
                time as int),
        ),
        r.is_some() ==> r.unwrap().url@ == config.ingestion_url@,
        r.is_some() ==> r.unwrap().content_type@ == ascii_seq("application/json"@),
        r.is_some() ==> r.unwrap().timeout_secs == EXPORT_TIMEOUT_SECS,
{
    let keep = should_sample(drawn, config.effective_percentage());
    let outcome = capture_response(record, keep, raw_headers, status_code, body);
    match outcome {
        TransactionOutcome::Skipped => None,
        TransactionOutcome::Captured(c) => {
            proof {
                assert(batch_view_of(c, time as int) == expected_batch(
                    record.unwrap(),
                    pairs_view(raw_headers@),
                    status_code,
                    body@,
                    time as int,
                ));
            }
            let batch = build_batch(&c, time);
            let payload = serialize_batch(&batch);
            Some(export_request(config, payload))
        },
    }
}

/// The full response phase as the host drives it: draws this transaction's
/// sample, reads the clock, and yields the export request — the batch
/// document for the clock's timestamp — or `None` when the transaction is
/// skipped.
pub fn mirror_response(
    config: &Config,
    record: Option<CaptureRecord>,
    raw_headers: &Vec<(Vec<u8>, Vec<u8>)>,
    status_code: u16,
    body: &[u8],
) -> (r: Option<ExportRequest>)
    ensures
        record.is_none() ==> r.is_none(),
        config.spec_effective_percentage() <= 0 ==> r.is_none(),
        (record.is_some() && config.spec_effective_percentage() >= 100) ==> r.is_some(),
        r.is_some() ==> (exists|t: int|
            r.unwrap().body@ == batch_json(
                expected_batch(record.unwrap(), pairs_view(raw_headers@), status_code, body@, t),
            )),
        r.is_some() ==> r.unwrap().url@ == config.ingestion_url@,
        r.is_some() ==> r.unwrap().content_type@ == ascii_seq("application/json"@),
        r.is_some() ==> r.unwrap().timeout_secs == EXPORT_TIMEOUT_SECS,
{
    let drawn = draw_percent();
    let time = now_unix_seconds();
    let r = respond_with(config, record, drawn, raw_headers, status_code, body, time);
    proof {
        if r.is_some() {
            assert(r.unwrap().body@ == batch_json(
                expected_batch(record.unwrap(), pairs_view(raw_headers@), status_code, body@,
                    time as int),
            ));
        }
    }
    r
}

} // verus!
