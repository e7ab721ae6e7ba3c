//! The Exporter's decisions: building the POST the host issues, and
//! classifying its outcome. The call is best-effort: rejection and transport
//! failure are soft, logged only, and never propagate to the proxy path.

use vstd::prelude::*;

use crate::config::Config;
use crate::text::{ascii_bytes_of, ascii_seq, clone_bytes};

verus! {

/// The export call's timeout bound, in seconds.
pub const EXPORT_TIMEOUT_SECS: u64 = 10;

/// Everything the host needs to issue one export POST. Each export call owns
/// its request exclusively until the POST returns or fails.
pub struct ExportRequest {
    /// The ingestion endpoint.
    pub url: Vec<u8>,
    /// The one request header's value: the content type.
    pub content_type: Vec<u8>,
    /// The serialized batch document.
    pub body: Vec<u8>,
    /// The timeout bound in seconds.
    pub timeout_secs: u64,
}

/// Renders the export POST for a configuration and a serialized batch: the
/// configured endpoint, content type `application/json`, the fixed timeout.
pub fn export_request(config: &Config, body: Vec<u8>) -> (r: ExportRequest)
    ensures
        r.url@ == config.ingestion_url@,
        r.content_type@ == ascii_seq("application/json"@),
        r.body@ == body@,
        r.timeout_secs == EXPORT_TIMEOUT_SECS,
{
    proof {
        reveal_strlit("application/json");
        assert(vstd::string::is_ascii("application/json"));
    }
    ExportRequest {
        url: clone_bytes(&config.ingestion_url),
        content_type: ascii_bytes_of("application/json"),
        body,
        timeout_secs: EXPORT_TIMEOUT_SECS,
    }
}

/// How one export attempt ended.
pub enum ExportOutcome {
    /// The ingestion service acknowledged the batch: status 200, 202 or 204.
    Delivered,
    /// Transport success with any other status: a soft failure, logged only.
    Rejected(u16),
    /// A transport-level error or the timeout: a soft failure, logged only.
    TransportFailed,
}

impl ExportOutcome {
    /// Whether this outcome is a soft failure: everything but delivery.
    pub open spec fn is_soft_failure(&self) -> bool {
        !(self is Delivered)
    }
}

/// The outcome a transport result is owed: delivery on 200, 202 or 204,
/// rejection on any other status, transport failure on none.
pub open spec fn classified(status: Option<u16>) -> ExportOutcome {
    match status {
        Some(s) => if s == 200 || s == 202 || s == 204 {
            ExportOutcome::Delivered
        } else {
            ExportOutcome::Rejected(s)
        },
        None => ExportOutcome::TransportFailed,
    }
}

/// Classifies the transport result of one export POST. `None` stands for a
/// transport-level error, the timeout included; the classification never
/// raises anything back to the caller.
pub fn classify_export(status: Option<u16>) -> (r: ExportOutcome)
    ensures
        r == classified(status),
        r.is_soft_failure() <==> !(status is Some && (status.unwrap() == 200 || status.unwrap()
            == 202 || status.unwrap() == 204)),
{
    match status {
        Some(s) => if s == 200 || s == 202 || s == 204 {
            ExportOutcome::Delivered
        } else {
            ExportOutcome::Rejected(s)
        },
        None => ExportOutcome::TransportFailed,
    }
}

} // verus!
