//! The per-transaction outcome, the Batch Builder, and the export document.
//!
//! An `ExportBatch` carries the variable content of one export call; the
//! fixed entry fields — the placeholder ip `0.0.0.0`, the protocol label
//! `HTTP/1.1`, the empty status, the account and identifier tags, the pending
//! flag and the source tag — are rendered at serialization and never vary.

use vstd::prelude::*;

use crate::capture::{normalized_headers_json, CaptureRecord};
use crate::headers::{headers_json, normalize_headers};
use crate::json::{dec_digits, dec_i64, json_string, write_i64, write_json_string, write_u64};
use crate::text::{append_bytes, ascii_bytes_of, ascii_seq, clone_bytes, lossy_utf8, pairs_view,
    utf8_lossy};

verus! {

/// The response phase's data joined to its request's capture record.
pub struct CapturedTransaction {
    /// The request-phase record.
    pub record: CaptureRecord,
    /// The normalized response headers as a JSON object.
    pub response_headers: Vec<u8>,
    /// The response status code.
    pub status_code: u16,
    /// The response body after best-effort UTF-8 decoding.
    pub response_body: Vec<u8>,
}

/// The decision state of one response phase: constructed and consumed within
/// a single response-phase invocation, never persisted.
pub enum TransactionOutcome {
    /// The request phase yielded no record, or sampling dropped the
    /// transaction: nothing downstream runs.
    Skipped,
    /// Request and response data joined, ready for the Batch Builder.
    Captured(CapturedTransaction),
}

impl TransactionOutcome {
    /// Whether this outcome carries a captured transaction.
    pub open spec fn is_captured(&self) -> bool {
        match self {
            TransactionOutcome::Captured(_) => true,
            TransactionOutcome::Skipped => false,
        }
    }

    /// The captured transaction this outcome carries.
    pub open spec fn captured(&self) -> CapturedTransaction
        recommends
            self.is_captured(),
    {
        match self {
            TransactionOutcome::Captured(c) => *c,
            TransactionOutcome::Skipped => arbitrary(),
        }
    }
}

/// The Response Capturer: skips when sampling dropped the transaction or the
/// request phase yielded no record; otherwise normalizes the response headers
/// exactly as the request side does, reads the status code, and decodes the
/// body best-effort.
pub fn capture_response(
    record: Option<CaptureRecord>,
    keep: bool,
    raw_headers: &Vec<(Vec<u8>, Vec<u8>)>,
    status_code: u16,
    body: &[u8],
) -> (r: TransactionOutcome)
    ensures
        r.is_captured() <==> (keep && record.is_some()),
        r.is_captured() ==> r.captured().record == record.unwrap(),
        r.is_captured() ==> r.captured().response_headers@ == normalized_headers_json(
            pairs_view(raw_headers@),
        ),
        r.is_captured() ==> r.captured().status_code == status_code,
        r.is_captured() ==> r.captured().response_body@ == lossy_utf8(body@),
        (r.is_captured() && (forall|i: int| 0 <= i < body@.len() ==> body@[i] < 0x80))
            ==> r.captured().response_body@ == body@,
{
    if !keep {
        return TransactionOutcome::Skipped;
    }
    match record {
        None => TransactionOutcome::Skipped,
        Some(rec) => {
            let m = normalize_headers(raw_headers);
            let response_headers = headers_json(&m);
            let response_body = utf8_lossy(body);
            TransactionOutcome::Captured(
                CapturedTransaction { record: rec, response_headers, status_code, response_body },
            )
        },
    }
}

/// The variable content of one export document.
pub struct ExportBatch {
    /// Resolved host followed by the request path.
    pub path: Vec<u8>,
    /// The request headers JSON, embedded as a string.
    pub request_headers: Vec<u8>,
    /// The response headers JSON, embedded as a string.
    pub response_headers: Vec<u8>,
    /// The HTTP verb.
    pub method: Vec<u8>,
    /// The decoded request body.
    pub request_payload: Vec<u8>,
    /// The decoded response body.
    pub response_payload: Vec<u8>,
    /// Unix seconds, sampled when the batch is built.
    pub time: i64,
    /// The response status code.
    pub status_code: u16,
}

/// The mathematical content of an `ExportBatch`.
pub struct BatchView {
    /// Resolved host followed by the request path.
    pub path: Seq<u8>,
    /// The request headers JSON.
    pub request_headers: Seq<u8>,
    /// The response headers JSON.
    pub response_headers: Seq<u8>,
    /// The HTTP verb.
    pub method: Seq<u8>,
    /// The decoded request body.
    pub request_payload: Seq<u8>,
    /// The decoded response body.
    pub response_payload: Seq<u8>,
    /// Unix seconds at build time.
    pub time: int,
    /// The response status code.
    pub status_code: u16,
}

impl View for ExportBatch {
    type V = BatchView;

    open spec fn view(&self) -> BatchView {
        BatchView {
            path: self.path@,
            request_headers: self.request_headers@,
            response_headers: self.response_headers@,
            method: self.method@,
            request_payload: self.request_payload@,
            response_payload: self.response_payload@,
            time: self.time as int,
            status_code: self.status_code,
        }
    }
}

/// The batch the builder owes a captured transaction and a timestamp.
pub open spec fn batch_view_of(c: CapturedTransaction, time: int) -> BatchView {
    BatchView {
        path: c.record.url@,
        request_headers: c.record.request_headers@,
        response_headers: c.response_headers@,
        method: c.record.method@,
        request_payload: c.record.request_body@,
        response_payload: c.response_body@,
        time: time,
        status_code: c.status_code,
    }
}

/// The Batch Builder: a pure merge of the captured transaction and the
/// export-time timestamp; no field is validated or altered, empty strings
/// pass through unchanged.
pub fn build_batch(c: &CapturedTransaction, time: i64) -> (b: ExportBatch)
    ensures
        b@ == batch_view_of(*c, time as int),
{
    ExportBatch {
        path: clone_bytes(&c.record.url),
        request_headers: clone_bytes(&c.record.request_headers),
        response_headers: clone_bytes(&c.response_headers),
        method: clone_bytes(&c.record.method),
        request_payload: clone_bytes(&c.record.request_body),
        response_payload: clone_bytes(&c.response_body),
        time,
        status_code: c.status_code,
    }
}

/// The document bytes before the rendered timestamp; a function of every
/// field but `time`.
pub open spec fn batch_before_time(b: BatchView) -> Seq<u8> {
    ascii_seq("{\"batchData\":[{\"path\":"@) + json_string(b.path) + ascii_seq(
        ",\"requestHeaders\":"@,
    ) + json_string(b.request_headers) + ascii_seq(",\"responseHeaders\":"@) + json_string(
        b.response_headers,
    ) + ascii_seq(",\"method\":"@) + json_string(b.method) + ascii_seq(",\"requestPayload\":"@)
        + json_string(b.request_payload) + ascii_seq(",\"responsePayload\":"@) + json_string(
        b.response_payload,
    ) + ascii_seq(",\"ip\":\"0.0.0.0\",\"time\":"@)
}

/// The document bytes after the rendered timestamp; a function of the status
/// code alone.
pub open spec fn batch_after_time(b: BatchView) -> Seq<u8> {
    ascii_seq(",\"statusCode\":"@) + dec_digits(b.status_code as nat) + ascii_seq(
        ",\"type\":\"HTTP/1.1\",\"status\":\"\",\"akto_account_id\":\"1000000\",\"akto_vxlan_id\":\"123\",\"is_pending\":\"false\",\"source\":\"MIRRORING\"}]}"@,
    )
}

/// The export wire document: a `batchData` array holding the one entry.
pub open spec fn batch_json(b: BatchView) -> Seq<u8> {
    batch_before_time(b) + dec_i64(b.time) + batch_after_time(b)
}

/// The Exporter's serialization step: renders the batch document exactly.
pub fn serialize_batch(b: &ExportBatch) -> (r: Vec<u8>)
    ensures
        r@ == batch_json(b@),
{
    proof {
        reveal_strlit("{\"batchData\":[{\"path\":");
        reveal_strlit(",\"requestHeaders\":");
        reveal_strlit(",\"responseHeaders\":");
        reveal_strlit(",\"method\":");
        reveal_strlit(",\"requestPayload\":");
        reveal_strlit(",\"responsePayload\":");
        reveal_strlit(",\"ip\":\"0.0.0.0\",\"time\":");
        reveal_strlit(",\"statusCode\":");
        reveal_strlit(
            ",\"type\":\"HTTP/1.1\",\"status\":\"\",\"akto_account_id\":\"1000000\",\"akto_vxlan_id\":\"123\",\"is_pending\":\"false\",\"source\":\"MIRRORING\"}]}",
        );
    }
    let mut out: Vec<u8> = Vec::new();
    let c0 = ascii_bytes_of("{\"batchData\":[{\"path\":");
    append_bytes(&mut out, c0.as_slice());
    write_json_string(&mut out, b.path.as_slice());
    let c1 = ascii_bytes_of(",\"requestHeaders\":");
    append_bytes(&mut out, c1.as_slice());
    write_json_string(&mut out, b.request_headers.as_slice());
    let c2 = ascii_bytes_of(",\"responseHeaders\":");
    append_bytes(&mut out, c2.as_slice());
    write_json_string(&mut out, b.response_headers.as_slice());
    let c3 = ascii_bytes_of(",\"method\":");
    append_bytes(&mut out, c3.as_slice());
    write_json_string(&mut out, b.method.as_slice());
    let c4 = ascii_bytes_of(",\"requestPayload\":");
    append_bytes(&mut out, c4.as_slice());
    write_json_string(&mut out, b.request_payload.as_slice());
    let c5 = ascii_bytes_of(",\"responsePayload\":");
    append_bytes(&mut out, c5.as_slice());
    write_json_string(&mut out, b.response_payload.as_slice());
    let c6 = ascii_bytes_of(",\"ip\":\"0.0.0.0\",\"time\":");
    append_bytes(&mut out, c6.as_slice());
    proof {
        assert(out@ =~= batch_before_time(b@));
    }
    write_i64(&mut out, b.time);
    let c7 = ascii_bytes_of(",\"statusCode\":");
    append_bytes(&mut out, c7.as_slice());
    write_u64(&mut out, b.status_code as u64);
    let c8 = ascii_bytes_of(
        ",\"type\":\"HTTP/1.1\",\"status\":\"\",\"akto_account_id\":\"1000000\",\"akto_vxlan_id\":\"123\",\"is_pending\":\"false\",\"source\":\"MIRRORING\"}]}",
    );
    append_bytes(&mut out, c8.as_slice());
    proof {
        assert(out@ =~= batch_json(b@));
    }
    out
}

/// Building the batch twice from one captured transaction yields documents
/// identical except for the timestamp: every field but `time` agrees, and the
/// serialized JSON is the same byte sequence before and after the rendered
/// time.
pub proof fn lemma_batch_build_idempotent(c: CapturedTransaction, t1: int, t2: int)
    ensures
        batch_view_of(c, t1).path == batch_view_of(c, t2).path,
        batch_view_of(c, t1).request_headers == batch_view_of(c, t2).request_headers,
        batch_view_of(c, t1).response_headers == batch_view_of(c, t2).response_headers,
        batch_view_of(c, t1).method == batch_view_of(c, t2).method,
        batch_view_of(c, t1).request_payload == batch_view_of(c, t2).request_payload,
        batch_view_of(c, t1).response_payload == batch_view_of(c, t2).response_payload,
        batch_view_of(c, t1).status_code == batch_view_of(c, t2).status_code,
        batch_json(batch_view_of(c, t1)) == batch_before_time(batch_view_of(c, t1)) + dec_i64(t1)
            + batch_after_time(batch_view_of(c, t1)),
        batch_before_time(batch_view_of(c, t1)) == batch_before_time(batch_view_of(c, t2)),
        batch_after_time(batch_view_of(c, t1)) == batch_after_time(batch_view_of(c, t2)),
{
}

/// Relies on `chrono::Utc::now` and `DateTime::timestamp`: Unix seconds at
/// the moment of the call. Nothing is promised of the value: it is the
/// clock's.
#[verifier::external_body]
pub(crate) fn now_unix_seconds() -> i64 {
    chrono::Utc::now().timestamp()
}

} // verus!
